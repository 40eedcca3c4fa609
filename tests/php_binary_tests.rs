use php_runtime::error::Error;
use php_runtime::models::StartServerRequest;
use php_runtime::php_binary::PhpBinaryManager;

#[test]
fn test_php_binary_manager_creation() {
    let manager = PhpBinaryManager::new();
    assert!(manager.php_directory().ends_with("php-binaries"));
}

#[test]
fn test_get_php_executable_path() {
    let manager = PhpBinaryManager::new();
    let path = manager.get_php_executable_path("8.3.0");
    let dir = manager.get_version_directory("8.3.0");
    assert!(path.starts_with(&dir));
    assert!(path.len() > dir.len());
    assert!(dir.ends_with("8.3.0"));
    assert!(dir.starts_with(manager.php_directory().as_str()));
    if std::path::MAIN_SEPARATOR == '\\' {
        assert!(path.ends_with("php.exe"));
    } else {
        assert!(path.ends_with("bin/php"));
    }
}

#[test]
fn test_get_download_url() {
    let manager = PhpBinaryManager::new();
    assert_eq!(
        manager.get_download_url("8.3.0", "macos", "x86_64").unwrap(),
        "https://github.com/NativePHP/php-bin/releases/download/v8.3.0/php-8.3.0-mac-x64.tar.gz"
    );
    assert_eq!(
        manager.get_download_url("8.2.15", "windows", "aarch64").unwrap(),
        "https://github.com/NativePHP/php-bin/releases/download/v8.2.15/php-8.2.15-win-arm64.zip"
    );
    assert_eq!(
        manager.get_download_url("7.4.33", "linux", "riscv64").unwrap(),
        "https://github.com/NativePHP/php-bin/releases/download/v7.4.33/php-7.4.33-linux-riscv64.tar.gz"
    );
    assert!(matches!(
        manager.get_download_url("8.3.0", "haiku", "x86_64"),
        Err(Error::Unknown(m)) if m == "Unsupported OS: haiku"
    ));
}

#[test]
fn binary_archive_path() {
    let manager = PhpBinaryManager::new();
    let archive = manager.get_binary_path("8.3.0");
    assert!(archive.starts_with(manager.php_directory().as_str()));
    if std::path::MAIN_SEPARATOR == '\\' {
        assert!(archive.ends_with("php-8.3.0.zip"));
    } else {
        assert!(archive.ends_with("php-8.3.0.tar.gz"));
    }
}

#[test]
fn requested_runtime_version() {
    let mut req = StartServerRequest {
        project_path: "/p".to_string(),
        port: None,
        host: None,
        php_version: None,
        document_root: None,
    };
    assert_eq!(PhpBinaryManager::requested_version(&req), "8.3.0");
    req.php_version = Some("8.1.27".to_string());
    assert_eq!(PhpBinaryManager::requested_version(&req), "8.1.27");
}

#[test]
fn binaries_dir_falls_back_to_current_dir() {
    let m = PhpBinaryManager::with_data_dir(None, '/');
    assert_eq!(m.php_directory(), "./tauri-php-plugin/php-binaries");
    let m = PhpBinaryManager::with_data_dir(Some("/home/a/.local/share".to_string()), '/');
    assert_eq!(m.php_directory(), "/home/a/.local/share/tauri-php-plugin/php-binaries");
    assert_eq!(m.get_php_executable_path("8.3.0"), "/home/a/.local/share/tauri-php-plugin/php-binaries/8.3.0/bin/php");
    let w = PhpBinaryManager::with_data_dir(Some("C:\\Data".to_string()), '\\');
    assert_eq!(w.get_php_executable_path("8.3.0"), "C:\\Data\\tauri-php-plugin\\php-binaries\\8.3.0\\php.exe");
    assert!(w.get_binary_path("8.3.0").ends_with("php-8.3.0.zip"));
}

#[test]
fn absolute_version_replaces_the_directory() {
    let m = PhpBinaryManager::with_data_dir(Some("/d".to_string()), '/');
    assert_eq!(m.get_version_directory("/x"), "/x");
    assert_eq!(m.get_php_executable_path("/x"), "/x/bin/php");
    assert_eq!(m.get_php_executable_path("8.3.0"), "/d/tauri-php-plugin/php-binaries/8.3.0/bin/php");
}
