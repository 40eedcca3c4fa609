use vstd::prelude::*;
use vstd::string::StringSliceAdditionalSpecFns;

use crate::error::{Error, Result};
use crate::models::Framework;
use crate::scan::{entry_text_has, present, text_has, Marker, ProjectScan, ScanView};

verus! {

/// The dependency manifest was found and its text names `package`.
pub open spec fn manifest_names(v: ScanView, package: &str) -> bool {
    text_has(v, Marker::ComposerJson, package.spec_bytes())
}

pub open spec fn laravel_rule(v: ScanView) -> bool {
    present(v, Marker::Artisan) || present(v, Marker::AppHttpKernel) || present(
        v,
        Marker::BootstrapApp,
    ) || present(v, Marker::ConfigApp) || manifest_names(v, "laravel/framework")
}

pub open spec fn symfony_rule(v: ScanView) -> bool {
    present(v, Marker::BinConsole) || present(v, Marker::ConfigBundles) || present(
        v,
        Marker::SymfonyLock,
    ) || present(v, Marker::SrcKernel) || manifest_names(v, "symfony/framework-bundle")
        || manifest_names(v, "symfony/symfony")
}

pub open spec fn codeigniter_rule(v: ScanView) -> bool {
    present(v, Marker::SystemCodeIgniter) || present(v, Marker::ApplicationConfig) || (present(
        v,
        Marker::AppDir,
    ) && present(v, Marker::SystemDir) && text_has(
        v,
        Marker::RootIndex,
        "CodeIgniter".spec_bytes(),
    ))
}

pub open spec fn cakephp_rule(v: ScanView) -> bool {
    present(v, Marker::BinCake) || present(v, Marker::ConfigApp) || present(
        v,
        Marker::SrcApplication,
    ) || present(v, Marker::WebrootIndex) || manifest_names(v, "cakephp/cakephp")
}

pub open spec fn zend_rule(v: ScanView) -> bool {
    present(v, Marker::ConfigApplicationConfig) || present(v, Marker::ConfigModulesConfig)
        || present(v, Marker::ModuleApplication) || manifest_names(v, "zendframework/")
        || manifest_names(v, "laminas/")
}

pub open spec fn yii_rule(v: ScanView) -> bool {
    present(v, Marker::YiiScript) || present(v, Marker::ConfigWeb) || present(v, Marker::WebIndex)
        || present(v, Marker::MigrateController) || manifest_names(v, "yiisoft/yii2")
}

pub open spec fn thinkphp_rule(v: ScanView) -> bool {
    text_has(v, Marker::ThinkScript, "think\\Console".spec_bytes()) || text_has(
        v,
        Marker::ThinkScript,
        "think/Console".spec_bytes(),
    ) || text_has(v, Marker::PublicIndex, "think\\App".spec_bytes()) || text_has(
        v,
        Marker::PublicIndex,
        "think/App".spec_bytes(),
    ) || manifest_names(v, "topthink/framework") || manifest_names(v, "topthink/think") || (
    present(v, Marker::ApplicationDir) && present(v, Marker::PublicDir)) || (present(
        v,
        Marker::ThinkPhpDir,
    ) && present(v, Marker::ApplicationUpperDir))
}

pub open spec fn phalcon_rule(v: ScanView) -> bool {
    text_has(v, Marker::AppConfigConfig, "Phalcon".spec_bytes()) || text_has(
        v,
        Marker::PublicIndex,
        "Phalcon".spec_bytes(),
    ) || manifest_names(v, "phalcon/")
}

pub open spec fn slim_rule(v: ScanView) -> bool {
    manifest_names(v, "slim/slim") || (present(v, Marker::PublicDir) && present(v, Marker::SrcDir)
        && (text_has(v, Marker::PublicIndex, "Slim\\App".spec_bytes()) || text_has(
        v,
        Marker::PublicIndex,
        "Slim/App".spec_bytes(),
    )))
}

pub open spec fn lumen_rule(v: ScanView) -> bool {
    text_has(v, Marker::BootstrapApp, "Laravel\\Lumen".spec_bytes()) || text_has(
        v,
        Marker::PublicIndex,
        "Laravel\\Lumen".spec_bytes(),
    ) || manifest_names(v, "laravel/lumen")
}

/// Whether the rule set of category `f` matches; the fallback categories
/// match on a root source file (Plain) or always (Unknown).
pub open spec fn rule_matches(v: ScanView, f: Framework) -> bool {
    match f {
        Framework::Laravel => laravel_rule(v),
        Framework::Symfony => symfony_rule(v),
        Framework::CodeIgniter => codeigniter_rule(v),
        Framework::CakePHP => cakephp_rule(v),
        Framework::Zend => zend_rule(v),
        Framework::Yii => yii_rule(v),
        Framework::ThinkPHP => thinkphp_rule(v),
        Framework::Phalcon => phalcon_rule(v),
        Framework::Slim => slim_rule(v),
        Framework::Lumen => lumen_rule(v),
        Framework::Plain => v.has_php_file,
        Framework::Unknown => true,
    }
}

/// Position of each category in the evaluation order.
pub open spec fn rank(f: Framework) -> nat {
    match f {
        Framework::Laravel => 0,
        Framework::Symfony => 1,
        Framework::CodeIgniter => 2,
        Framework::CakePHP => 3,
        Framework::Zend => 4,
        Framework::Yii => 5,
        Framework::ThinkPHP => 6,
        Framework::Phalcon => 7,
        Framework::Slim => 8,
        Framework::Lumen => 9,
        Framework::Plain => 10,
        Framework::Unknown => 11,
    }
}

/// The category of a scanned project: the first rule set, in evaluation
/// order, that matches.
pub open spec fn classify(v: ScanView) -> Framework {
    if laravel_rule(v) {
        Framework::Laravel
    } else if symfony_rule(v) {
        Framework::Symfony
    } else if codeigniter_rule(v) {
        Framework::CodeIgniter
    } else if cakephp_rule(v) {
        Framework::CakePHP
    } else if zend_rule(v) {
        Framework::Zend
    } else if yii_rule(v) {
        Framework::Yii
    } else if thinkphp_rule(v) {
        Framework::ThinkPHP
    } else if phalcon_rule(v) {
        Framework::Phalcon
    } else if slim_rule(v) {
        Framework::Slim
    } else if lumen_rule(v) {
        Framework::Lumen
    } else if v.has_php_file {
        Framework::Plain
    } else {
        Framework::Unknown
    }
}

/// The manifest part of each category's rule set.
pub open spec fn manifest_rule(v: ScanView, f: Framework) -> bool {
    match f {
        Framework::Laravel => manifest_names(v, "laravel/framework"),
        Framework::Symfony => manifest_names(v, "symfony/framework-bundle") || manifest_names(
            v,
            "symfony/symfony",
        ),
        Framework::CakePHP => manifest_names(v, "cakephp/cakephp"),
        Framework::Zend => manifest_names(v, "zendframework/") || manifest_names(v, "laminas/"),
        Framework::Yii => manifest_names(v, "yiisoft/yii2"),
        Framework::ThinkPHP => manifest_names(v, "topthink/framework") || manifest_names(
            v,
            "topthink/think",
        ),
        Framework::Phalcon => manifest_names(v, "phalcon/"),
        Framework::Slim => manifest_names(v, "slim/slim"),
        Framework::Lumen => manifest_names(v, "laravel/lumen"),
        _ => false,
    }
}

/// Classification is a function of what was found, not of the order in
/// which it was listed: two scans holding the same entries and agreeing on
/// the root source file get the same category.
pub proof fn lemma_classify_depends_only_on_contents(a: ScanView, b: ScanView)
    requires
        forall|e: (Marker, Option<Seq<u8>>)| a.entries.contains(e) <==> b.entries.contains(e),
        a.has_php_file == b.has_php_file,
    ensures
        classify(a) == classify(b),
{
    assert forall|m: Marker| #[trigger] present(a, m) == present(b, m) by {
        if present(a, m) {
            let i = choose|i: int| 0 <= i < a.entries.len() && (#[trigger] a.entries[i]).0 == m;
            assert(a.entries.contains(a.entries[i]));
            let j = choose|j: int| 0 <= j < b.entries.len() && b.entries[j] == a.entries[i];
            assert(b.entries[j].0 == m);
        }
        if present(b, m) {
            let i = choose|i: int| 0 <= i < b.entries.len() && (#[trigger] b.entries[i]).0 == m;
            assert(b.entries.contains(b.entries[i]));
            let j = choose|j: int| 0 <= j < a.entries.len() && a.entries[j] == b.entries[i];
            assert(a.entries[j].0 == m);
        }
    }
    assert forall|m: Marker, n: Seq<u8>| #[trigger] text_has(a, m, n) == text_has(b, m, n) by {
        if text_has(a, m, n) {
            let i = choose|i: int|
                0 <= i < a.entries.len() && #[trigger] entry_text_has(a.entries[i], m, n);
            assert(a.entries.contains(a.entries[i]));
            let j = choose|j: int| 0 <= j < b.entries.len() && b.entries[j] == a.entries[i];
            assert(entry_text_has(b.entries[j], m, n));
        }
        if text_has(b, m, n) {
            let i = choose|i: int|
                0 <= i < b.entries.len() && #[trigger] entry_text_has(b.entries[i], m, n);
            assert(b.entries.contains(b.entries[i]));
            let j = choose|j: int| 0 <= j < a.entries.len() && a.entries[j] == b.entries[i];
            assert(entry_text_has(a.entries[j], m, n));
        }
    }
}

/// The category returned is one whose rule set matches, and no rule set
/// earlier in the evaluation order matches.
pub proof fn lemma_classify_is_first_match(v: ScanView)
    ensures
        rule_matches(v, classify(v)),
        forall|f: Framework| rank(f) < rank(classify(v)) ==> !rule_matches(v, f),
{
}

/// When the rule sets of two categories both match, the one evaluated
/// later is never returned.
pub proof fn lemma_earlier_rule_wins(v: ScanView, a: Framework, b: Framework)
    requires
        rule_matches(v, a),
        rule_matches(v, b),
        rank(a) < rank(b),
    ensures
        classify(v) != b,
        rank(classify(v)) <= rank(a),
{
    lemma_classify_is_first_match(v);
}

/// A root `artisan` next to a `bin/console` classifies as Laravel, the
/// category evaluated first.
pub proof fn lemma_artisan_beats_console(v: ScanView)
    requires
        present(v, Marker::Artisan),
        present(v, Marker::BinConsole),
    ensures
        classify(v) == Framework::Laravel,
{
}

/// A directory with no marker and no root source file classifies as
/// Unknown.
pub proof fn lemma_empty_is_unknown(v: ScanView)
    requires
        v.entries.len() == 0,
        !v.has_php_file,
    ensures
        classify(v) == Framework::Unknown,
{
}

/// A directory whose only marker is a root `index.php`, with a root source
/// file, classifies as Plain.
pub proof fn lemma_lone_index_is_plain(v: ScanView)
    requires
        forall|i: int| 0 <= i < v.entries.len() ==> (#[trigger] v.entries[i]).0 == Marker::RootIndex,
        v.has_php_file,
    ensures
        classify(v) == Framework::Plain,
{
    assert forall|m: Marker| m != Marker::RootIndex implies !#[trigger] present(v, m) by {}
    assert forall|m: Marker, n: Seq<u8>| m != Marker::RootIndex implies !#[trigger] text_has(
        v,
        m,
        n,
    ) by {
        if text_has(v, m, n) {
            let i = choose|i: int|
                0 <= i < v.entries.len() && #[trigger] entry_text_has(v.entries[i], m, n);
        }
    }
}

/// A directory whose only marker is the dependency manifest classifies as
/// the category whose package the manifest names, unless it also names a
/// package of a category evaluated earlier.
pub proof fn lemma_manifest_only(v: ScanView, f: Framework)
    requires
        forall|i: int|
            0 <= i < v.entries.len() ==> (#[trigger] v.entries[i]).0 == Marker::ComposerJson,
        manifest_rule(v, f),
        forall|g: Framework| rank(g) < rank(f) ==> !manifest_rule(v, g),
    ensures
        classify(v) == f,
{
    assert forall|m: Marker| m != Marker::ComposerJson implies !#[trigger] present(v, m) by {}
    assert forall|m: Marker, n: Seq<u8>| m != Marker::ComposerJson implies !#[trigger] text_has(
        v,
        m,
        n,
    ) by {
        if text_has(v, m, n) {
            let i = choose|i: int|
                0 <= i < v.entries.len() && #[trigger] entry_text_has(v.entries[i], m, n);
        }
    }
    assert forall|g: Framework| rank(g) < rank(f) implies !#[trigger] rule_matches(v, g) by {
        assert(!manifest_rule(v, g));
    }
    lemma_classify_is_first_match(v);
    assert(rule_matches(v, f));
}

/// Static description of a category.
#[derive(Debug, Clone)]
pub struct FrameworkInfo {
    pub name: &'static str,
    pub default_entry_point: &'static str,
    pub requires_composer: bool,
    pub setup_commands: Vec<&'static str>,
    pub default_port: u16,
}

pub open spec fn info_name(f: Framework) -> Seq<char> {
    match f {
        Framework::Zend => "Zend/Laminas"@,
        Framework::Plain => "Plain PHP"@,
        Framework::Laravel => "Laravel"@,
        Framework::Symfony => "Symfony"@,
        Framework::CodeIgniter => "CodeIgniter"@,
        Framework::CakePHP => "CakePHP"@,
        Framework::Yii => "Yii"@,
        Framework::Phalcon => "Phalcon"@,
        Framework::Slim => "Slim"@,
        Framework::Lumen => "Lumen"@,
        Framework::ThinkPHP => "ThinkPHP"@,
        Framework::Unknown => "Unknown"@,
    }
}

pub open spec fn info_entry_point(f: Framework) -> Seq<char> {
    match f {
        Framework::CodeIgniter | Framework::Plain | Framework::Unknown => "index.php"@,
        Framework::CakePHP => "webroot/index.php"@,
        Framework::Yii => "web/index.php"@,
        _ => "public/index.php"@,
    }
}

pub open spec fn info_requires_composer(f: Framework) -> bool {
    !(f == Framework::CodeIgniter || f == Framework::Phalcon || f == Framework::Plain || f
        == Framework::Unknown)
}

pub open spec fn info_setup_commands(f: Framework) -> Seq<Seq<char>> {
    match f {
        Framework::Laravel => seq![
            "composer install"@,
            "cp .env.example .env"@,
            "php artisan key:generate"@,
        ],
        Framework::CodeIgniter | Framework::Phalcon | Framework::Plain | Framework::Unknown => seq![],
        _ => seq!["composer install"@],
    }
}

pub open spec fn info_default_port(f: Framework) -> u16 {
    match f {
        Framework::CakePHP => 8765,
        Framework::CodeIgniter | Framework::Zend | Framework::Yii | Framework::Phalcon
        | Framework::Slim => 8080,
        _ => 8000,
    }
}

/// The descriptor has exactly the catalogue's entries for `f`.
pub open spec fn describes(r: FrameworkInfo, f: Framework) -> bool {
    &&& r.name@ == info_name(f)
    &&& r.default_entry_point@ == info_entry_point(f)
    &&& r.requires_composer == info_requires_composer(f)
    &&& r.setup_commands@.len() == info_setup_commands(f).len()
    &&& forall|i: int|
        0 <= i < r.setup_commands@.len() ==> (#[trigger] r.setup_commands@[i])@
            == info_setup_commands(f)[i]
    &&& r.default_port == info_default_port(f)
}

/// Classifies projects by the markers found under their root.
pub struct FrameworkDetector;

impl Default for FrameworkDetector {
    fn default() -> (r: Self) {
        FrameworkDetector
    }
}

impl FrameworkDetector {
    pub fn new() -> (r: FrameworkDetector) {
        FrameworkDetector
    }

    /// The category of the scanned project: the first matching rule set in
    /// the fixed evaluation order, else Plain or Unknown.
    pub fn detect_framework(&self, scan: &ProjectScan) -> (r: Result<Framework>)
        ensures
            r matches Ok(f) && f == classify(scan@),
    {
        if self.is_laravel_project(scan) {
            return Ok(Framework::Laravel);
        }
        if self.is_symfony_project(scan) {
            return Ok(Framework::Symfony);
        }
        if self.is_codeigniter_project(scan) {
            return Ok(Framework::CodeIgniter);
        }
        if self.is_cakephp_project(scan) {
            return Ok(Framework::CakePHP);
        }
        if self.is_zend_project(scan) {
            return Ok(Framework::Zend);
        }
        if self.is_yii_project(scan) {
            return Ok(Framework::Yii);
        }
        if self.is_thinkphp_project(scan) {
            return Ok(Framework::ThinkPHP);
        }
        if self.is_phalcon_project(scan) {
            return Ok(Framework::Phalcon);
        }
        if self.is_slim_project(scan) {
            return Ok(Framework::Slim);
        }
        if self.is_lumen_project(scan) {
            return Ok(Framework::Lumen);
        }
        if self.is_php_project(scan) {
            return Ok(Framework::Plain);
        }
        Ok(Framework::Unknown)
    }

    fn is_laravel_project(&self, scan: &ProjectScan) -> (r: bool)
        ensures
            r == laravel_rule(scan@),
    {
        scan.has(Marker::Artisan) || scan.has(Marker::AppHttpKernel) || scan.has(
            Marker::BootstrapApp,
        ) || scan.has(Marker::ConfigApp) || scan.text_contains(
            Marker::ComposerJson,
            "laravel/framework",
        )
    }

    fn is_symfony_project(&self, scan: &ProjectScan) -> (r: bool)
        ensures
            r == symfony_rule(scan@),
    {
        scan.has(Marker::BinConsole) || scan.has(Marker::ConfigBundles) || scan.has(
            Marker::SymfonyLock,
        ) || scan.has(Marker::SrcKernel) || scan.text_contains(
            Marker::ComposerJson,
            "symfony/framework-bundle",
        ) || scan.text_contains(Marker::ComposerJson, "symfony/symfony")
    }

    fn is_codeigniter_project(&self, scan: &ProjectScan) -> (r: bool)
        ensures
            r == codeigniter_rule(scan@),
    {
        scan.has(Marker::SystemCodeIgniter) || scan.has(Marker::ApplicationConfig) || (scan.has(
            Marker::AppDir,
        ) && scan.has(Marker::SystemDir) && scan.text_contains(Marker::RootIndex, "CodeIgniter"))
    }

    fn is_cakephp_project(&self, scan: &ProjectScan) -> (r: bool)
        ensures
            r == cakephp_rule(scan@),
    {
        scan.has(Marker::BinCake) || scan.has(Marker::ConfigApp) || scan.has(
            Marker::SrcApplication,
        ) || scan.has(Marker::WebrootIndex) || scan.text_contains(
            Marker::ComposerJson,
            "cakephp/cakephp",
        )
    }

    fn is_zend_project(&self, scan: &ProjectScan) -> (r: bool)
        ensures
            r == zend_rule(scan@),
    {
        scan.has(Marker::ConfigApplicationConfig) || scan.has(Marker::ConfigModulesConfig)
            || scan.has(Marker::ModuleApplication) || scan.text_contains(
            Marker::ComposerJson,
            "zendframework/",
        ) || scan.text_contains(Marker::ComposerJson, "laminas/")
    }

    fn is_yii_project(&self, scan: &ProjectScan) -> (r: bool)
        ensures
            r == yii_rule(scan@),
    {
        scan.has(Marker::YiiScript) || scan.has(Marker::ConfigWeb) || scan.has(Marker::WebIndex)
            || scan.has(Marker::MigrateController) || scan.text_contains(
            Marker::ComposerJson,
            "yiisoft/yii2",
        )
    }

    fn is_thinkphp_project(&self, scan: &ProjectScan) -> (r: bool)
        ensures
            r == thinkphp_rule(scan@),
    {
        scan.text_contains(Marker::ThinkScript, "think\\Console") || scan.text_contains(
            Marker::ThinkScript,
            "think/Console",
        ) || scan.text_contains(Marker::PublicIndex, "think\\App") || scan.text_contains(
            Marker::PublicIndex,
            "think/App",
        ) || scan.text_contains(Marker::ComposerJson, "topthink/framework") || scan.text_contains(
            Marker::ComposerJson,
            "topthink/think",
        ) || (scan.has(Marker::ApplicationDir) && scan.has(Marker::PublicDir)) || (scan.has(
            Marker::ThinkPhpDir,
        ) && scan.has(Marker::ApplicationUpperDir))
    }

    fn is_phalcon_project(&self, scan: &ProjectScan) -> (r: bool)
        ensures
            r == phalcon_rule(scan@),
    {
        scan.text_contains(Marker::AppConfigConfig, "Phalcon") || scan.text_contains(
            Marker::PublicIndex,
            "Phalcon",
        ) || scan.text_contains(Marker::ComposerJson, "phalcon/")
    }

    fn is_slim_project(&self, scan: &ProjectScan) -> (r: bool)
        ensures
            r == slim_rule(scan@),
    {
        scan.text_contains(Marker::ComposerJson, "slim/slim") || (scan.has(Marker::PublicDir)
            && scan.has(Marker::SrcDir) && (scan.text_contains(Marker::PublicIndex, "Slim\\App")
            || scan.text_contains(Marker::PublicIndex, "Slim/App")))
    }

    fn is_lumen_project(&self, scan: &ProjectScan) -> (r: bool)
        ensures
            r == lumen_rule(scan@),
    {
        scan.text_contains(Marker::BootstrapApp, "Laravel\\Lumen") || scan.text_contains(
            Marker::PublicIndex,
            "Laravel\\Lumen",
        ) || scan.text_contains(Marker::ComposerJson, "laravel/lumen")
    }

    fn is_php_project(&self, scan: &ProjectScan) -> (r: bool)
        ensures
            r == scan@.has_php_file,
    {
        scan.has_php_file
    }

    /// The catalogue entry of a category.
    pub fn get_framework_info(&self, framework: &Framework) -> (r: FrameworkInfo)
        ensures
            describes(r, *framework),
    {
        match framework {
            Framework::Laravel => FrameworkInfo {
                name: "Laravel",
                default_entry_point: "public/index.php",
                requires_composer: true,
                setup_commands: vec![
                    "composer install",
                    "cp .env.example .env",
                    "php artisan key:generate",
                ],
                default_port: 8000,
            },
            Framework::Symfony => FrameworkInfo {
                name: "Symfony",
                default_entry_point: "public/index.php",
                requires_composer: true,
                setup_commands: vec!["composer install"],
                default_port: 8000,
            },
            Framework::CodeIgniter => FrameworkInfo {
                name: "CodeIgniter",
                default_entry_point: "index.php",
                requires_composer: false,
                setup_commands: vec![],
                default_port: 8080,
            },
            Framework::CakePHP => FrameworkInfo {
                name: "CakePHP",
                default_entry_point: "webroot/index.php",
                requires_composer: true,
                setup_commands: vec!["composer install"],
                default_port: 8765,
            },
            Framework::Zend => FrameworkInfo {
                name: "Zend/Laminas",
                default_entry_point: "public/index.php",
                requires_composer: true,
                setup_commands: vec!["composer install"],
                default_port: 8080,
            },
            Framework::Yii => FrameworkInfo {
                name: "Yii",
                default_entry_point: "web/index.php",
                requires_composer: true,
                setup_commands: vec!["composer install"],
                default_port: 8080,
            },
            Framework::Phalcon => FrameworkInfo {
                name: "Phalcon",
                default_entry_point: "public/index.php",
                requires_composer: false,
                setup_commands: vec![],
                default_port: 8080,
            },
            Framework::Slim => FrameworkInfo {
                name: "Slim",
                default_entry_point: "public/index.php",
                requires_composer: true,
                setup_commands: vec!["composer install"],
                default_port: 8080,
            },
            Framework::Lumen => FrameworkInfo {
                name: "Lumen",
                default_entry_point: "public/index.php",
                requires_composer: true,
                setup_commands: vec!["composer install"],
                default_port: 8000,
            },
            Framework::ThinkPHP => FrameworkInfo {
                name: "ThinkPHP",
                default_entry_point: "public/index.php",
                requires_composer: true,
                setup_commands: vec!["composer install"],
                default_port: 8000,
            },
            Framework::Plain => FrameworkInfo {
                name: "Plain PHP",
                default_entry_point: "index.php",
                requires_composer: false,
                setup_commands: vec![],
                default_port: 8000,
            },
            Framework::Unknown => FrameworkInfo {
                name: "Unknown",
                default_entry_point: "index.php",
                requires_composer: false,
                setup_commands: vec![],
                default_port: 8000,
            },
        }
    }
}

} // verus!
