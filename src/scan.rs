use vstd::prelude::*;
use vstd::string::StringSliceAdditionalSpecFns;

verus! {

/// Relative paths under a project root whose presence (and sometimes text)
/// the classification rules read.
#[derive(Debug, Clone, Copy, PartialEq, Eq, Structural)]
pub enum Marker {
    Artisan,
    AppHttpKernel,
    BootstrapApp,
    ConfigApp,
    BinConsole,
    ConfigBundles,
    SymfonyLock,
    SrcKernel,
    SystemCodeIgniter,
    ApplicationConfig,
    AppDir,
    SystemDir,
    RootIndex,
    BinCake,
    SrcApplication,
    WebrootIndex,
    ConfigApplicationConfig,
    ConfigModulesConfig,
    ModuleApplication,
    YiiScript,
    ConfigWeb,
    WebIndex,
    MigrateController,
    ThinkScript,
    PublicIndex,
    ApplicationDir,
    PublicDir,
    ThinkPhpDir,
    ApplicationUpperDir,
    AppConfigConfig,
    SrcDir,
    ComposerJson,
}

pub open spec fn marker_path(m: Marker) -> Seq<char> {
    match m {
        Marker::Artisan => "artisan"@,
        Marker::AppHttpKernel => "app/Http/Kernel.php"@,
        Marker::BootstrapApp => "bootstrap/app.php"@,
        Marker::ConfigApp => "config/app.php"@,
        Marker::BinConsole => "bin/console"@,
        Marker::ConfigBundles => "config/bundles.php"@,
        Marker::SymfonyLock => "symfony.lock"@,
        Marker::SrcKernel => "src/Kernel.php"@,
        Marker::SystemCodeIgniter => "system/CodeIgniter.php"@,
        Marker::ApplicationConfig => "application/config/config.php"@,
        Marker::AppDir => "app"@,
        Marker::SystemDir => "system"@,
        Marker::RootIndex => "index.php"@,
        Marker::BinCake => "bin/cake"@,
        Marker::SrcApplication => "src/Application.php"@,
        Marker::WebrootIndex => "webroot/index.php"@,
        Marker::ConfigApplicationConfig => "config/application.config.php"@,
        Marker::ConfigModulesConfig => "config/modules.config.php"@,
        Marker::ModuleApplication => "module/Application"@,
        Marker::YiiScript => "yii"@,
        Marker::ConfigWeb => "config/web.php"@,
        Marker::WebIndex => "web/index.php"@,
        Marker::MigrateController => "commands/MigrateController.php"@,
        Marker::ThinkScript => "think"@,
        Marker::PublicIndex => "public/index.php"@,
        Marker::ApplicationDir => "application"@,
        Marker::PublicDir => "public"@,
        Marker::ThinkPhpDir => "ThinkPHP"@,
        Marker::ApplicationUpperDir => "Application"@,
        Marker::AppConfigConfig => "app/config/config.php"@,
        Marker::SrcDir => "src"@,
        Marker::ComposerJson => "composer.json"@,
    }
}

/// The markers whose text some rule inspects.
pub open spec fn marker_text_read(m: Marker) -> bool {
    m == Marker::ComposerJson || m == Marker::RootIndex || m == Marker::ThinkScript
        || m == Marker::PublicIndex || m == Marker::AppConfigConfig || m == Marker::BootstrapApp
}

impl Marker {
    /// Path of the marker relative to the project root, `/`-separated.
    pub fn path(&self) -> (r: &'static str)
        ensures
            r@ == marker_path(*self),
    {
        match self {
            Marker::Artisan => "artisan",
            Marker::AppHttpKernel => "app/Http/Kernel.php",
            Marker::BootstrapApp => "bootstrap/app.php",
            Marker::ConfigApp => "config/app.php",
            Marker::BinConsole => "bin/console",
            Marker::ConfigBundles => "config/bundles.php",
            Marker::SymfonyLock => "symfony.lock",
            Marker::SrcKernel => "src/Kernel.php",
            Marker::SystemCodeIgniter => "system/CodeIgniter.php",
            Marker::ApplicationConfig => "application/config/config.php",
            Marker::AppDir => "app",
            Marker::SystemDir => "system",
            Marker::RootIndex => "index.php",
            Marker::BinCake => "bin/cake",
            Marker::SrcApplication => "src/Application.php",
            Marker::WebrootIndex => "webroot/index.php",
            Marker::ConfigApplicationConfig => "config/application.config.php",
            Marker::ConfigModulesConfig => "config/modules.config.php",
            Marker::ModuleApplication => "module/Application",
            Marker::YiiScript => "yii",
            Marker::ConfigWeb => "config/web.php",
            Marker::WebIndex => "web/index.php",
            Marker::MigrateController => "commands/MigrateController.php",
            Marker::ThinkScript => "think",
            Marker::PublicIndex => "public/index.php",
            Marker::ApplicationDir => "application",
            Marker::PublicDir => "public",
            Marker::ThinkPhpDir => "ThinkPHP",
            Marker::ApplicationUpperDir => "Application",
            Marker::AppConfigConfig => "app/config/config.php",
            Marker::SrcDir => "src",
            Marker::ComposerJson => "composer.json",
        }
    }

    /// Whether a rule inspects the text of this marker, so that a scan
    /// should carry it.
    pub fn text_is_read(&self) -> (r: bool)
        ensures
            r == marker_text_read(*self),
    {
        match self {
            Marker::ComposerJson | Marker::RootIndex | Marker::ThinkScript | Marker::PublicIndex
            | Marker::AppConfigConfig | Marker::BootstrapApp => true,
            _ => false,
        }
    }

    /// Every marker, each once.
    pub fn all() -> (r: Vec<Marker>)
        ensures
            r@.len() == 32,
            forall|m: Marker| r@.contains(m),
            r@.no_duplicates(),
    {
        let r = vec![
            Marker::Artisan,
            Marker::AppHttpKernel,
            Marker::BootstrapApp,
            Marker::ConfigApp,
            Marker::BinConsole,
            Marker::ConfigBundles,
            Marker::SymfonyLock,
            Marker::SrcKernel,
            Marker::SystemCodeIgniter,
            Marker::ApplicationConfig,
            Marker::AppDir,
            Marker::SystemDir,
            Marker::RootIndex,
            Marker::BinCake,
            Marker::SrcApplication,
            Marker::WebrootIndex,
            Marker::ConfigApplicationConfig,
            Marker::ConfigModulesConfig,
            Marker::ModuleApplication,
            Marker::YiiScript,
            Marker::ConfigWeb,
            Marker::WebIndex,
            Marker::MigrateController,
            Marker::ThinkScript,
            Marker::PublicIndex,
            Marker::ApplicationDir,
            Marker::PublicDir,
            Marker::ThinkPhpDir,
            Marker::ApplicationUpperDir,
            Marker::AppConfigConfig,
            Marker::SrcDir,
            Marker::ComposerJson,
        ];
        assert forall|m: Marker| r@.contains(m) by {
            match m {
                Marker::Artisan => assert(r@[0] == m),
                Marker::AppHttpKernel => assert(r@[1] == m),
                Marker::BootstrapApp => assert(r@[2] == m),
                Marker::ConfigApp => assert(r@[3] == m),
                Marker::BinConsole => assert(r@[4] == m),
                Marker::ConfigBundles => assert(r@[5] == m),
                Marker::SymfonyLock => assert(r@[6] == m),
                Marker::SrcKernel => assert(r@[7] == m),
                Marker::SystemCodeIgniter => assert(r@[8] == m),
                Marker::ApplicationConfig => assert(r@[9] == m),
                Marker::AppDir => assert(r@[10] == m),
                Marker::SystemDir => assert(r@[11] == m),
                Marker::RootIndex => assert(r@[12] == m),
                Marker::BinCake => assert(r@[13] == m),
                Marker::SrcApplication => assert(r@[14] == m),
                Marker::WebrootIndex => assert(r@[15] == m),
                Marker::ConfigApplicationConfig => assert(r@[16] == m),
                Marker::ConfigModulesConfig => assert(r@[17] == m),
                Marker::ModuleApplication => assert(r@[18] == m),
                Marker::YiiScript => assert(r@[19] == m),
                Marker::ConfigWeb => assert(r@[20] == m),
                Marker::WebIndex => assert(r@[21] == m),
                Marker::MigrateController => assert(r@[22] == m),
                Marker::ThinkScript => assert(r@[23] == m),
                Marker::PublicIndex => assert(r@[24] == m),
                Marker::ApplicationDir => assert(r@[25] == m),
                Marker::PublicDir => assert(r@[26] == m),
                Marker::ThinkPhpDir => assert(r@[27] == m),
                Marker::ApplicationUpperDir => assert(r@[28] == m),
                Marker::AppConfigConfig => assert(r@[29] == m),
                Marker::SrcDir => assert(r@[30] == m),
                Marker::ComposerJson => assert(r@[31] == m),
            }
        }
        r
    }
}

/// `n` occurs in `h` starting at index `i`.
pub open spec fn occurs_at(h: Seq<u8>, n: Seq<u8>, i: int) -> bool {
    0 <= i && i + n.len() <= h.len() && h.subrange(i, i + n.len()) == n
}

/// `n` occurs somewhere in `h`.
pub open spec fn contains_bytes(h: Seq<u8>, n: Seq<u8>) -> bool {
    exists|i: int| #[trigger] occurs_at(h, n, i)
}

fn occurs_at_exec(h: &Vec<u8>, n: &[u8], i: usize) -> (r: bool)
    requires
        i + n@.len() <= h@.len(),
    ensures
        r == occurs_at(h@, n@, i as int),
{
    let hl: usize = h.len();
    let mut j: usize = 0;
    while j < n.len()
        invariant
            hl == h@.len(),
            j <= n@.len(),
            i + n@.len() <= h@.len(),
            forall|k: int| 0 <= k < j ==> h@[i + k] == n@[k],
        decreases n@.len() - j,
    {
        if h[i + j] != n[j] {
            assert(h@.subrange(i as int, i + n@.len())[j as int] != n@[j as int]);
            return false;
        }
        j += 1;
    }
    assert(h@.subrange(i as int, i + n@.len()) =~= n@);
    true
}

/// Byte-substring search.
pub fn bytes_contain(h: &Vec<u8>, n: &[u8]) -> (r: bool)
    ensures
        r == contains_bytes(h@, n@),
{
    if n.len() > h.len() {
        assert forall|i: int| !occurs_at(h@, n@, i) by {}
        return false;
    }
    if n.len() == 0 {
        assert(h@.subrange(0, 0) =~= n@);
        assert(occurs_at(h@, n@, 0));
        return true;
    }
    let last: usize = h.len() - n.len();
    let mut i: usize = 0;
    while i <= last
        invariant
            i <= last + 1,
            last == h@.len() - n@.len(),
            n@.len() > 0,
            h@.len() <= usize::MAX,
            forall|k: int| 0 <= k < i ==> !occurs_at(h@, n@, k),
        decreases last + 1 - i,
    {
        if occurs_at_exec(h, n, i) {
            return true;
        }
        i += 1;
    }
    assert forall|k: int| !occurs_at(h@, n@, k) by {
        if 0 <= k < i {
        }
    }
    false
}

/// One marker found under a project root, with its text where it was read.
#[derive(Debug, Clone)]
pub struct ScanEntry {
    pub marker: Marker,
    pub text: Option<Vec<u8>>,
}

/// What the classification rules know of a project directory: the markers
/// found under it, and whether the root holds a source file of the language.
#[derive(Debug, Clone)]
pub struct ProjectScan {
    pub entries: Vec<ScanEntry>,
    pub has_php_file: bool,
}

/// Mathematical model of a scan.
pub ghost struct ScanView {
    pub entries: Seq<(Marker, Option<Seq<u8>>)>,
    pub has_php_file: bool,
}

pub open spec fn entry_view(e: ScanEntry) -> (Marker, Option<Seq<u8>>) {
    (
        e.marker,
        match e.text {
            Some(t) => Some(t@),
            None => None,
        },
    )
}

impl View for ProjectScan {
    type V = ScanView;

    open spec fn view(&self) -> ScanView {
        ScanView {
            entries: self.entries@.map_values(|e: ScanEntry| entry_view(e)),
            has_php_file: self.has_php_file,
        }
    }
}

/// The marker was found.
pub open spec fn present(v: ScanView, m: Marker) -> bool {
    exists|i: int| 0 <= i < v.entries.len() && (#[trigger] v.entries[i]).0 == m
}

/// The entry is marker `m` and its text contains `n`.
pub open spec fn entry_text_has(e: (Marker, Option<Seq<u8>>), m: Marker, n: Seq<u8>) -> bool {
    e.0 == m && match e.1 {
        Some(t) => contains_bytes(t, n),
        None => false,
    }
}

/// The marker was found and its text contains `n`.
pub open spec fn text_has(v: ScanView, m: Marker, n: Seq<u8>) -> bool {
    exists|i: int| 0 <= i < v.entries.len() && #[trigger] entry_text_has(v.entries[i], m, n)
}

impl ProjectScan {
    /// A scan that found nothing.
    pub fn empty() -> (r: ProjectScan)
        ensures
            r@.entries.len() == 0,
            !r@.has_php_file,
    {
        ProjectScan { entries: Vec::new(), has_php_file: false }
    }

    /// Records a marker without its text.
    pub fn add(&mut self, marker: Marker)
        ensures
            final(self)@.entries == old(self)@.entries.push((marker, None::<Seq<u8>>)),
            final(self)@.has_php_file == old(self)@.has_php_file,
    {
        self.entries.push(ScanEntry { marker, text: None });
        assert(self@.entries =~= old(self)@.entries.push((marker, None::<Seq<u8>>)));
    }

    /// Records a marker together with its text.
    pub fn add_with_text(&mut self, marker: Marker, text: Vec<u8>)
        ensures
            final(self)@.entries == old(self)@.entries.push((marker, Some(text@))),
            final(self)@.has_php_file == old(self)@.has_php_file,
    {
        let ghost t = text@;
        self.entries.push(ScanEntry { marker, text: Some(text) });
        assert(self@.entries =~= old(self)@.entries.push((marker, Some(t))));
    }

    pub fn has(&self, m: Marker) -> (r: bool)
        ensures
            r == present(self@, m),
    {
        let mut i: usize = 0;
        while i < self.entries.len()
            invariant
                i <= self.entries@.len(),
                forall|k: int| 0 <= k < i ==> self@.entries[k].0 != m,
            decreases self.entries@.len() - i,
        {
            if self.entries[i].marker == m {
                assert(self@.entries[i as int].0 == m);
                return true;
            }
            i += 1;
        }
        false
    }

    pub fn text_contains(&self, m: Marker, needle: &str) -> (r: bool)
        ensures
            r == text_has(self@, m, needle.spec_bytes()),
    {
        let n = needle.as_bytes();
        let mut i: usize = 0;
        while i < self.entries.len()
            invariant
                i <= self.entries@.len(),
                n@ == needle.spec_bytes(),
                forall|k: int| 0 <= k < i ==> !#[trigger] entry_text_has(self@.entries[k], m, n@),
            decreases self.entries@.len() - i,
        {
            let e = &self.entries[i];
            if e.marker == m {
                match &e.text {
                    Some(t) => {
                        if bytes_contain(t, n) {
                            assert(entry_text_has(self@.entries[i as int], m, n@));
                            return true;
                        }
                    },
                    None => {},
                }
            }
            i += 1;
        }
        false
    }
}

} // verus!
