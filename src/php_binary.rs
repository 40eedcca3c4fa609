use vstd::prelude::*;

use crate::error::{Error, Result};
use crate::models::{StartServerRequest, DEFAULT_PHP_VERSION};
use crate::paths::{data_dir, dir_or_current, is_separator, join_path, main_separator, path_joined};
use crate::php_server::opt_view;

verus! {

fn same_text(a: &str, b: &str) -> (r: bool)
    ensures
        r == (a@ == b@),
{
    String::from_str(a) == String::from_str(b)
}

/// The archive extension of the platform's runtime downloads.
pub open spec fn archive_extension(windows: bool) -> Seq<char> {
    if windows {
        "zip"@
    } else {
        "tar.gz"@
    }
}

/// The release naming of an architecture.
pub open spec fn arch_label(arch: Seq<char>) -> Seq<char> {
    if arch == "x86_64"@ {
        "x64"@
    } else if arch == "aarch64"@ {
        "arm64"@
    } else {
        arch
    }
}

/// The release naming of an operating system; None when unsupported.
pub open spec fn os_label(os: Seq<char>) -> Option<Seq<char>> {
    if os == "windows"@ {
        Some("win"@)
    } else if os == "macos"@ {
        Some("mac"@)
    } else if os == "linux"@ {
        Some("linux"@)
    } else {
        None
    }
}

/// Download address of a runtime release.
pub open spec fn download_url_of(version: Seq<char>, os_name: Seq<char>, arch: Seq<char>, ext: Seq<
    char,
>) -> Seq<char> {
    "https://github.com/NativePHP/php-bin/releases/download/v"@ + version + "/"@ + "php-"@ + version
        + "-"@ + os_name + "-"@ + arch_label(arch) + "."@ + ext
}

impl Default for PhpBinaryManager {
    fn default() -> (r: Self)
        ensures
            r.wf(),
    {
        Self::new()
    }
}

/// Where the binaries live, given the data directory the platform reported
/// (None: it reported none).
pub open spec fn binaries_dir(data: Option<Seq<char>>, sep: char) -> Seq<char> {
    path_joined(path_joined(dir_or_current(data), "tauri-php-plugin"@, sep), "php-binaries"@, sep)
}

/// Locates runtime binaries under a per-user directory.
pub struct PhpBinaryManager {
    php_dir: String,
    separator: char,
}

impl PhpBinaryManager {
    pub closed spec fn dir(&self) -> Seq<char> {
        self.php_dir@
    }

    /// The platform's path separator.
    pub closed spec fn sep(&self) -> char {
        self.separator
    }

    /// Whether binaries follow the Windows layout.
    pub open spec fn on_windows(&self) -> bool {
        self.sep() == '\\'
    }

    pub closed spec fn wf(&self) -> bool {
        is_separator(self.separator)
    }

    /// A manager of the binaries under the data directory's
    /// `tauri-php-plugin/php-binaries` (under `.` when the data directory is
    /// unknown).
    pub fn new() -> (r: PhpBinaryManager)
        ensures
            r.wf(),
            exists|data: Option<Seq<char>>| r.dir() == binaries_dir(data, r.sep()),
    {
        let data = data_dir();
        let r = Self::with_data_dir(data.clone(), main_separator());
        assert(r.dir() == binaries_dir(opt_view(data), r.sep()));
        r
    }

    /// A manager of the binaries under `data_dir`'s
    /// `tauri-php-plugin/php-binaries`, or under `.` when `data_dir` is None.
    pub fn with_data_dir(data_dir: Option<String>, separator: char) -> (r: PhpBinaryManager)
        requires
            is_separator(separator),
        ensures
            r.wf(),
            r.sep() == separator,
            r.dir() == binaries_dir(opt_view(data_dir), separator),
    {
        let base = match data_dir {
            Some(d) => d,
            None => String::from_str("."),
        };
        let plugin = join_path(base.as_str(), "tauri-php-plugin", separator);
        let php_dir = join_path(plugin.as_str(), "php-binaries", separator);
        PhpBinaryManager { php_dir, separator }
    }

    /// The directory that holds the binaries.
    pub fn php_directory(&self) -> (r: &String)
        ensures
            r@ == self.dir(),
    {
        &self.php_dir
    }

    /// Where the downloaded archive of `version` is kept.
    pub fn get_binary_path(&self, version: &str) -> (r: String)
        requires
            self.wf(),
        ensures
            r@ == path_joined(
                self.dir(),
                "php-"@ + version@ + "."@ + archive_extension(self.on_windows()),
                self.sep(),
            ),
    {
        let mut name = String::from_str("php-");
        name.append(version);
        name.append(".");
        if self.separator == '\\' {
            name.append("zip");
        } else {
            name.append("tar.gz");
        }
        join_path(self.php_dir.as_str(), name.as_str(), self.separator)
    }

    pub fn get_version_directory(&self, version: &str) -> (r: String)
        requires
            self.wf(),
        ensures
            r@ == path_joined(self.dir(), version@, self.sep()),
    {
        join_path(self.php_dir.as_str(), version, self.separator)
    }

    /// The runtime executable of `version`: `php.exe` in its directory on
    /// Windows, `bin/php` elsewhere.
    pub fn get_php_executable_path(&self, version: &str) -> (r: String)
        requires
            self.wf(),
        ensures
            r@ == if self.on_windows() {
                path_joined(path_joined(self.dir(), version@, self.sep()), "php.exe"@, self.sep())
            } else {
                path_joined(
                    path_joined(path_joined(self.dir(), version@, self.sep()), "bin"@, self.sep()),
                    "php"@,
                    self.sep(),
                )
            },
    {
        let version_dir = self.get_version_directory(version);
        if self.separator == '\\' {
            join_path(version_dir.as_str(), "php.exe", self.separator)
        } else {
            let bin = join_path(version_dir.as_str(), "bin", self.separator);
            join_path(bin.as_str(), "php", self.separator)
        }
    }

    /// Download address of `version` for the given platform.
    pub fn get_download_url(&self, version: &str, os: &str, arch: &str) -> (r: Result<String>)
        ensures
            os_label(os@) is None ==> (r matches Err(Error::Unknown(m)) && m@ == "Unsupported OS: "@
                + os@),
            os_label(os@) matches Some(o) ==> (r matches Ok(u) && u@ == download_url_of(
                version@,
                o,
                arch@,
                archive_extension(os@ == "windows"@),
            )),
    {
        let arch_name: &str = if same_text(arch, "x86_64") {
            "x64"
        } else if same_text(arch, "aarch64") {
            "arm64"
        } else {
            arch
        };
        let os_name: &str = if same_text(os, "windows") {
            "win"
        } else if same_text(os, "macos") {
            "mac"
        } else if same_text(os, "linux") {
            "linux"
        } else {
            let mut m = String::from_str("Unsupported OS: ");
            m.append(os);
            return Err(Error::Unknown(m));
        };
        let extension: &str = if same_text(os, "windows") {
            "zip"
        } else {
            "tar.gz"
        };
        let mut url = String::from_str("https://github.com/NativePHP/php-bin/releases/download/v");
        url.append(version);
        url.append("/");
        url.append("php-");
        url.append(version);
        url.append("-");
        url.append(os_name);
        url.append("-");
        url.append(arch_name);
        url.append(".");
        url.append(extension);
        Ok(url)
    }

    /// The runtime version a start request runs: the one it names, else the
    /// default.
    pub fn requested_version(request: &StartServerRequest) -> (r: String)
        ensures
            r@ == match request.php_version {
                Some(v) => v@,
                None => DEFAULT_PHP_VERSION@,
            },
    {
        match &request.php_version {
            Some(v) => v.clone(),
            None => String::from_str(DEFAULT_PHP_VERSION),
        }
    }
}

} // verus!
