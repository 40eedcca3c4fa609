use php_runtime::framework_detector::FrameworkDetector;
use php_runtime::models::Framework;
use php_runtime::scan::{Marker, ProjectScan};

fn scan(markers: &[Marker], texts: &[(Marker, &str)], has_php_file: bool) -> ProjectScan {
    let mut s = ProjectScan::empty();
    for m in markers {
        s.add(*m);
    }
    for (m, t) in texts {
        s.add_with_text(*m, t.as_bytes().to_vec());
    }
    s.has_php_file = has_php_file;
    s
}

fn laravel_project() -> ProjectScan {
    scan(
        &[Marker::Artisan, Marker::AppHttpKernel, Marker::ConfigApp, Marker::AppDir, Marker::PublicDir],
        &[
            (Marker::BootstrapApp, "<?php\n$app = new Illuminate\\Foundation\\Application();"),
            (Marker::PublicIndex, "<?php\nrequire_once __DIR__.'/../vendor/autoload.php';"),
            (
                Marker::ComposerJson,
                "{\n    \"name\": \"laravel/laravel\",\n    \"require\": {\n        \"php\": \"^8.1\",\n        \"laravel/framework\": \"^10.0\"\n    }\n}",
            ),
        ],
        false,
    )
}

fn symfony_project() -> ProjectScan {
    scan(
        &[Marker::BinConsole, Marker::ConfigBundles, Marker::SrcKernel, Marker::SrcDir, Marker::PublicDir],
        &[
            (Marker::PublicIndex, "<?php\nuse App\\Kernel;"),
            (
                Marker::ComposerJson,
                "{\n    \"name\": \"symfony/skeleton\",\n    \"require\": {\n        \"php\": \">=8.1\",\n        \"symfony/framework-bundle\": \"^6.0\"\n    }\n}",
            ),
        ],
        false,
    )
}

fn thinkphp_project() -> ProjectScan {
    scan(
        &[Marker::AppDir, Marker::PublicDir],
        &[
            (Marker::ThinkScript, "#!/usr/bin/env php\n<?php\nuse think\\Console;"),
            (Marker::PublicIndex, "<?php\nuse think\\App;\n$app = new App();"),
            (
                Marker::ComposerJson,
                "{\n    \"name\": \"topthink/think\",\n    \"require\": {\n        \"php\": \">=7.2.5\",\n        \"topthink/framework\": \"^6.0\"\n    }\n}",
            ),
        ],
        false,
    )
}

fn codeigniter_project() -> ProjectScan {
    scan(
        &[Marker::SystemDir, Marker::SystemCodeIgniter, Marker::ApplicationDir, Marker::ApplicationConfig],
        &[(
            Marker::RootIndex,
            "<?php\ndefine('BASEPATH', 'system/');\nrequire_once BASEPATH.'CodeIgniter.php';",
        )],
        true,
    )
}

fn plain_project() -> ProjectScan {
    scan(&[], &[(Marker::RootIndex, "<?php\necho 'Hello, World!';")], true)
}

#[test]
fn test_detect_laravel_framework() {
    let detector = FrameworkDetector::new();
    assert_eq!(detector.detect_framework(&laravel_project()).unwrap(), Framework::Laravel);
}

#[test]
fn test_detect_symfony_framework() {
    let detector = FrameworkDetector::new();
    assert_eq!(detector.detect_framework(&symfony_project()).unwrap(), Framework::Symfony);
}

#[test]
fn test_detect_thinkphp_framework() {
    let detector = FrameworkDetector::new();
    assert_eq!(detector.detect_framework(&thinkphp_project()).unwrap(), Framework::ThinkPHP);
}

#[test]
fn test_detect_codeigniter_framework() {
    let detector = FrameworkDetector::new();
    assert_eq!(detector.detect_framework(&codeigniter_project()).unwrap(), Framework::CodeIgniter);
}

#[test]
fn test_detect_plain_php() {
    let detector = FrameworkDetector::new();
    assert_eq!(detector.detect_framework(&plain_project()).unwrap(), Framework::Plain);
}

#[test]
fn test_detect_unknown_framework() {
    let detector = FrameworkDetector::new();
    let result = detector.detect_framework(&ProjectScan::empty()).unwrap();
    assert_eq!(result, Framework::Unknown);
}

#[test]
fn test_get_framework_info() {
    let detector = FrameworkDetector::new();

    let laravel_info = detector.get_framework_info(&Framework::Laravel);
    assert_eq!(laravel_info.name, "Laravel");
    assert_eq!(laravel_info.default_entry_point, "public/index.php");
    assert!(laravel_info.requires_composer);
    assert_eq!(laravel_info.default_port, 8000);

    let thinkphp_info = detector.get_framework_info(&Framework::ThinkPHP);
    assert_eq!(thinkphp_info.name, "ThinkPHP");
    assert_eq!(thinkphp_info.default_entry_point, "public/index.php");
    assert!(thinkphp_info.requires_composer);
    assert_eq!(thinkphp_info.default_port, 8000);

    let ci_info = detector.get_framework_info(&Framework::CodeIgniter);
    assert_eq!(ci_info.name, "CodeIgniter");
    assert_eq!(ci_info.default_entry_point, "index.php");
    assert!(!ci_info.requires_composer);
    assert_eq!(ci_info.default_port, 8080);
}

#[test]
fn test_framework_priority() {
    let detector = FrameworkDetector::new();
    let mixed = scan(
        &[Marker::BinConsole],
        &[(Marker::Artisan, "#!/usr/bin/env php")],
        false,
    );
    assert_eq!(detector.detect_framework(&mixed).unwrap(), Framework::Laravel);
}

#[test]
fn test_composer_json_detection() {
    let detector = FrameworkDetector::new();
    let project = scan(
        &[],
        &[(
            Marker::ComposerJson,
            "{\n            \"require\": {\n                \"laravel/framework\": \"^10.0\"\n            }\n        }",
        )],
        false,
    );
    assert_eq!(detector.detect_framework(&project).unwrap(), Framework::Laravel);
}

#[test]
fn test_thinkphp_version_detection() {
    let detector = FrameworkDetector::new();
    let tp5 = scan(
        &[Marker::ApplicationDir, Marker::PublicDir],
        &[(Marker::PublicIndex, "<?php\nuse think\\App;\n$app = new App();")],
        false,
    );
    assert_eq!(detector.detect_framework(&tp5).unwrap(), Framework::ThinkPHP);

    let tp3 = scan(&[Marker::ThinkPhpDir, Marker::ApplicationUpperDir], &[], false);
    assert_eq!(detector.detect_framework(&tp3).unwrap(), Framework::ThinkPHP);
}

#[test]
fn test_case_sensitivity() {
    let detector = FrameworkDetector::new();
    // An upper-case `ARTISAN` matches no marker on a case-sensitive file system.
    let result = detector.detect_framework(&ProjectScan::empty()).unwrap();
    assert!(result == Framework::Unknown || result == Framework::Laravel);
}

#[test]
fn test_nested_project_detection() {
    let detector = FrameworkDetector::new();
    let project = scan(
        &[Marker::AppDir],
        &[
            (Marker::Artisan, "#!/usr/bin/env php"),
            (Marker::AppHttpKernel, "<?php\nnamespace App\\Http;\nclass Kernel {}"),
        ],
        false,
    );
    assert_eq!(detector.detect_framework(&project).unwrap(), Framework::Laravel);
}

#[test]
fn test_partial_framework_files() {
    let detector = FrameworkDetector::new();
    let project = scan(&[], &[(Marker::Artisan, "#!/usr/bin/env php")], false);
    assert_eq!(detector.detect_framework(&project).unwrap(), Framework::Laravel);
}

#[test]
fn classification_is_repeatable_and_order_free() {
    let detector = FrameworkDetector::new();
    let a = scan(&[Marker::BinCake, Marker::WebrootIndex], &[], false);
    let b = scan(&[Marker::WebrootIndex, Marker::BinCake, Marker::BinCake], &[], false);
    let first = detector.detect_framework(&a).unwrap();
    assert_eq!(first, Framework::CakePHP);
    assert_eq!(detector.detect_framework(&a).unwrap(), first);
    assert_eq!(detector.detect_framework(&b).unwrap(), first);
}

#[test]
fn manifest_only_detection_per_framework() {
    let detector = FrameworkDetector::new();
    let cases = [
        ("{\"require\": {\"symfony/symfony\": \"*\"}}", Framework::Symfony),
        ("{\"require\": {\"cakephp/cakephp\": \"*\"}}", Framework::CakePHP),
        ("{\"require\": {\"laminas/laminas-mvc\": \"*\"}}", Framework::Zend),
        ("{\"require\": {\"yiisoft/yii2\": \"*\"}}", Framework::Yii),
        ("{\"require\": {\"topthink/think\": \"*\"}}", Framework::ThinkPHP),
        ("{\"require\": {\"phalcon/incubator\": \"*\"}}", Framework::Phalcon),
        ("{\"require\": {\"slim/slim\": \"*\"}}", Framework::Slim),
        ("{\"require\": {\"laravel/lumen-framework\": \"*\"}}", Framework::Lumen),
        ("{\"require\": {\"monolog/monolog\": \"*\"}}", Framework::Unknown),
    ];
    for (text, expected) in cases {
        let project = scan(&[], &[(Marker::ComposerJson, text)], false);
        assert_eq!(detector.detect_framework(&project).unwrap(), expected, "{}", text);
    }
}

#[test]
fn content_markers_need_their_text() {
    let detector = FrameworkDetector::new();
    // `public/index.php` alone names no framework, and without a root source file the project is unknown.
    let bare = scan(&[Marker::PublicDir, Marker::PublicIndex], &[], false);
    assert_eq!(detector.detect_framework(&bare).unwrap(), Framework::Unknown);
    let phalcon = scan(&[], &[(Marker::PublicIndex, "<?php new Phalcon\\Mvc\\Application();")], false);
    assert_eq!(detector.detect_framework(&phalcon).unwrap(), Framework::Phalcon);
    let slim = scan(&[Marker::PublicDir, Marker::SrcDir], &[(Marker::PublicIndex, "use Slim\\App;")], false);
    assert_eq!(detector.detect_framework(&slim).unwrap(), Framework::Slim);
    let lumen = scan(&[], &[(Marker::PublicIndex, "new Laravel\\Lumen\\Application")], false);
    assert_eq!(detector.detect_framework(&lumen).unwrap(), Framework::Lumen);
    // `bootstrap/app.php` is also a Laravel marker, evaluated first.
    let lumen_bootstrap = scan(&[], &[(Marker::BootstrapApp, "new Laravel\\Lumen\\Application")], false);
    assert_eq!(detector.detect_framework(&lumen_bootstrap).unwrap(), Framework::Laravel);
    let ci4 = scan(&[Marker::AppDir, Marker::SystemDir], &[(Marker::RootIndex, "CodeIgniter\\Boot")], true);
    assert_eq!(detector.detect_framework(&ci4).unwrap(), Framework::CodeIgniter);
    let yii = scan(&[Marker::YiiScript], &[], false);
    assert_eq!(detector.detect_framework(&yii).unwrap(), Framework::Yii);
    let zend = scan(&[Marker::ModuleApplication], &[], false);
    assert_eq!(detector.detect_framework(&zend).unwrap(), Framework::Zend);
}

#[test]
fn framework_info_catalogue_entries() {
    let detector = FrameworkDetector::new();
    let laravel = detector.get_framework_info(&Framework::Laravel);
    assert_eq!(laravel.setup_commands, vec!["composer install", "cp .env.example .env", "php artisan key:generate"]);
    let cake = detector.get_framework_info(&Framework::CakePHP);
    assert_eq!(cake.default_port, 8765);
    assert_eq!(cake.default_entry_point, "webroot/index.php");
    let zend = detector.get_framework_info(&Framework::Zend);
    assert_eq!(zend.name, "Zend/Laminas");
    let yii = detector.get_framework_info(&Framework::Yii);
    assert_eq!(yii.default_entry_point, "web/index.php");
    let unknown = detector.get_framework_info(&Framework::Unknown);
    assert_eq!(unknown.name, "Unknown");
    assert!(unknown.setup_commands.is_empty());
    assert!(!unknown.requires_composer);
    let plain = detector.get_framework_info(&Framework::Plain);
    assert_eq!(plain.name, "Plain PHP");
    assert_eq!(plain.default_entry_point, "index.php");
}

#[test]
fn marker_catalogue_is_complete() {
    let all = Marker::all();
    assert_eq!(all.len(), 32);
    assert_eq!(Marker::ComposerJson.path(), "composer.json");
    assert_eq!(Marker::AppHttpKernel.path(), "app/Http/Kernel.php");
    assert!(Marker::PublicIndex.text_is_read());
    assert!(!Marker::Artisan.text_is_read());
}
