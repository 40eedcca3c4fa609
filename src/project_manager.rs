use vstd::prelude::*;
use vstd::string::StrSliceExecFns;

use crate::error::{Error, Result};
use crate::framework_detector::{describes, FrameworkDetector, FrameworkInfo, classify};
use crate::models::Framework;
use crate::paths::{dir_or_current, home_dir, is_separator, join_path, main_separator, path_joined};
use crate::php_server::opt_view;
use crate::scan::ProjectScan;

verus! {

/// The path component of the URL that `s` parses as; None when `s` is not
/// a URL.
pub uninterp spec fn url_path_of(s: Seq<char>) -> Option<Seq<char>>;

/// Relies on url::Url::parse and Url::path: the path component of the
/// parsed URL, or the parser's message.
#[verifier::external_body]
fn parse_url_path(s: &str) -> (r: core::result::Result<String, String>)
    ensures
        match r {
            Ok(p) => url_path_of(s@) == Some(p@),
            Err(_) => url_path_of(s@) is None,
        },
{
    match url::Url::parse(s) {
        Ok(u) => Ok(u.path().to_string()),
        Err(e) => Err(e.to_string()),
    }
}

/// What a dependency manifest states under `require` → `php` when that is
/// a string (inner None: it is absent or not a string); None when the text
/// is not JSON.
pub uninterp spec fn php_requirement_of(s: Seq<char>) -> Option<Option<Seq<char>>>;

/// Relies on serde_json::from_str into a Value and on Value's `[]` and
/// `as_str`: the string under `require` → `php`, or the parser's message.
#[verifier::external_body]
fn read_php_requirement(text: &str) -> (r: core::result::Result<Option<String>, String>)
    ensures
        match r {
            Ok(o) => php_requirement_of(text@) == Some(opt_view(o)),
            Err(_) => php_requirement_of(text@) is None,
        },
{
    match serde_json::from_str::<serde_json::Value>(text) {
        Ok(v) => Ok(v["require"]["php"].as_str().map(str::to_string)),
        Err(e) => Err(e.to_string()),
    }
}

pub open spec fn is_prefix(p: Seq<char>, s: Seq<char>) -> bool {
    p.len() <= s.len() && s.subrange(0, p.len() as int) == p
}

/// The runtime version a constraint asks for, by its leading caret range.
pub open spec fn constraint_version(c: Seq<char>) -> Option<Seq<char>> {
    if is_prefix("^8.3"@, c) {
        Some("8.3.0"@)
    } else if is_prefix("^8.2"@, c) {
        Some("8.2.0"@)
    } else if is_prefix("^8.1"@, c) {
        Some("8.1.0"@)
    } else if is_prefix("^8.0"@, c) {
        Some("8.0.0"@)
    } else if is_prefix("^7.4"@, c) {
        Some("7.4.0"@)
    } else {
        None
    }
}

pub open spec fn trim_leading_slashes(s: Seq<char>) -> Seq<char>
    decreases s.len(),
{
    if s.len() > 0 && s[0] == '/' {
        trim_leading_slashes(s.drop_first())
    } else {
        s
    }
}

pub open spec fn trim_git_suffixes(s: Seq<char>) -> Seq<char>
    decreases s.len(),
{
    if s.len() >= 4 && s.subrange(s.len() - 4, s.len() as int) == ".git"@ {
        trim_git_suffixes(s.subrange(0, s.len() - 4))
    } else {
        s
    }
}

/// The part after the last `/` (all of `s` when it holds none).
pub open spec fn last_segment(s: Seq<char>) -> Seq<char>
    decreases s.len(),
{
    if s.len() == 0 {
        s
    } else if s.last() == '/' {
        seq![]
    } else {
        last_segment(s.drop_last()).push(s.last())
    }
}

/// A project's name from its repository URL path: leading slashes and
/// trailing `.git` suffixes removed, then the last path segment.
pub open spec fn name_in_path(p: Seq<char>) -> Seq<char> {
    last_segment(trim_git_suffixes(trim_leading_slashes(p)))
}

/// The scaffold a materialised project gets, by words in its URL.
pub open spec fn scaffold_of(url: Seq<char>) -> Framework {
    if contains_chars(url, "laravel"@) {
        Framework::Laravel
    } else if contains_chars(url, "symfony"@) {
        Framework::Symfony
    } else if contains_chars(url, "thinkphp"@) || contains_chars(url, "think"@) {
        Framework::ThinkPHP
    } else {
        Framework::Plain
    }
}

pub open spec fn contains_chars(h: Seq<char>, n: Seq<char>) -> bool {
    exists|i: int| 0 <= i && i + n.len() <= h.len() && #[trigger] h.subrange(i, i + n.len()) == n
}

/// The entry point of a set-up project: fixed for some categories, else
/// the first of the candidate index files that exists.
pub open spec fn entry_point_of(f: Framework, public_index: bool, root_index: bool) -> Option<
    Seq<char>,
> {
    match f {
        Framework::Laravel | Framework::Symfony => Some("public/index.php"@),
        Framework::CodeIgniter => Some("index.php"@),
        Framework::CakePHP => Some("webroot/index.php"@),
        Framework::ThinkPHP => if public_index {
            Some("public/index.php"@)
        } else if root_index {
            Some("index.php"@)
        } else {
            None
        },
        _ => if root_index {
            Some("index.php"@)
        } else if public_index {
            Some("public/index.php"@)
        } else {
            None
        },
    }
}

fn starts_with(s: &str, p: &str) -> (r: bool)
    ensures
        r == is_prefix(p@, s@),
{
    let pl = p.unicode_len();
    let sl = s.unicode_len();
    if pl > sl {
        return false;
    }
    let mut i: usize = 0;
    while i < pl
        invariant
            pl == p@.len(),
            sl == s@.len(),
            pl <= sl,
            i <= pl,
            forall|k: int| 0 <= k < i ==> s@[k] == p@[k],
        decreases pl - i,
    {
        if s.get_char(i) != p.get_char(i) {
            assert(s@.subrange(0, pl as int)[i as int] != p@[i as int]);
            return false;
        }
        i += 1;
    }
    assert(s@.subrange(0, pl as int) =~= p@);
    true
}

fn contains_str(h: &str, n: &str) -> (r: bool)
    ensures
        r == contains_chars(h@, n@),
{
    let hl = h.unicode_len();
    let nl = n.unicode_len();
    if nl > hl {
        return false;
    }
    let mut i: usize = 0;
    while i <= hl - nl
        invariant
            hl == h@.len(),
            nl == n@.len(),
            nl <= hl,
            i <= hl - nl + 1,
            forall|k: int| 0 <= k < i ==> #[trigger] h@.subrange(k, k + nl) != n@,
        decreases hl - nl + 1 - i,
    {
        let mut j: usize = 0;
        let mut same = true;
        while j < nl
            invariant
                hl == h@.len(),
                nl == n@.len(),
                i + nl <= hl,
                j <= nl,
                same == forall|k: int| 0 <= k < j ==> h@[i + k] == n@[k],
            decreases nl - j,
        {
            if h.get_char(i + j) != n.get_char(j) {
                same = false;
            }
            j += 1;
        }
        if same {
            assert(h@.subrange(i as int, i + nl) =~= n@);
            return true;
        }
        assert(h@.subrange(i as int, i + nl) != n@) by {
            let k = choose|k: int| 0 <= k < nl && h@[i + k] != n@[k];
            assert(h@.subrange(i as int, i + nl)[k] != n@[k]);
        }
        i += 1;
    }
    false
}

impl Default for ProjectManager {
    fn default() -> (r: Self)
        ensures
            r.wf(),
    {
        Self::new()
    }
}

/// What the setup of a freshly materialised project looks at.
#[derive(Debug, Clone, Copy)]
pub struct SetupFacts {
    /// `composer.json` exists.
    pub composer_json: bool,
    /// The dependency installer can be run.
    pub composer_available: bool,
    /// `.env` exists.
    pub env_file: bool,
    /// `.env.example` exists.
    pub env_example: bool,
    /// `.example.env` exists.
    pub example_env: bool,
    /// `config/app.php` exists.
    pub config_app: bool,
    /// `application/config.php` exists.
    pub application_config: bool,
    /// `Application` exists.
    pub application_upper: bool,
    /// `runtime` exists.
    pub runtime_dir: bool,
    /// `Application/Runtime` exists.
    pub application_runtime_dir: bool,
}

/// The setup actions to perform, in order: install dependencies, copy an
/// environment template to `.env`, create a runtime directory.
#[derive(Debug, Clone)]
pub struct SetupPlan {
    pub install_dependencies: bool,
    pub copy_env_from: Option<String>,
    pub create_dir: Option<String>,
}

/// The setup actions of a category, given what the project holds; None
/// when the category needs a manifest that is missing.
pub open spec fn setup_actions(f: Framework, x: SetupFacts) -> Option<
    (bool, Option<Seq<char>>, Option<Seq<char>>),
> {
    match f {
        Framework::Laravel => if !x.composer_json {
            None
        } else {
            Some(
                (
                    x.composer_available,
                    if x.env_example && !x.env_file {
                        Some(".env.example"@)
                    } else {
                        None
                    },
                    None,
                ),
            )
        },
        Framework::Symfony => if !x.composer_json {
            None
        } else {
            Some((x.composer_available, None, None))
        },
        Framework::ThinkPHP => Some(
            (
                x.composer_json && x.composer_available,
                if x.config_app && x.example_env && !x.env_file {
                    Some(".example.env"@)
                } else {
                    None
                },
                if x.config_app {
                    None
                } else if x.application_config {
                    if x.runtime_dir {
                        None
                    } else {
                        Some("runtime"@)
                    }
                } else if x.application_upper && !x.application_runtime_dir {
                    Some("Application/Runtime"@)
                } else {
                    None
                },
            ),
        ),
        _ => Some((false, None, None)),
    }
}

/// Where projects live, given the home directory the platform reported
/// (None: it reported none).
pub open spec fn projects_dir_of(home: Option<Seq<char>>, sep: char) -> Seq<char> {
    path_joined(dir_or_current(home), "tauri-php-projects"@, sep)
}

/// Finds, organises and describes the projects under a directory.
pub struct ProjectManager {
    projects_dir: String,
    separator: char,
    framework_detector: FrameworkDetector,
}

impl ProjectManager {
    pub closed spec fn dir(&self) -> Seq<char> {
        self.projects_dir@
    }

    /// The platform's path separator.
    pub closed spec fn sep(&self) -> char {
        self.separator
    }

    pub closed spec fn wf(&self) -> bool {
        is_separator(self.separator)
    }

    /// A manager of the projects under the home directory's
    /// `tauri-php-projects` (under `.` when the home directory is unknown).
    pub fn new() -> (r: ProjectManager)
        ensures
            r.wf(),
            exists|home: Option<Seq<char>>| r.dir() == projects_dir_of(home, r.sep()),
    {
        let home = home_dir();
        let r = Self::with_home_dir(home.clone(), main_separator());
        assert(r.dir() == projects_dir_of(opt_view(home), r.sep()));
        r
    }

    /// A manager of the projects under `home_dir`'s `tauri-php-projects`,
    /// or under `.` when `home_dir` is None.
    pub fn with_home_dir(home_dir: Option<String>, separator: char) -> (r: ProjectManager)
        requires
            is_separator(separator),
        ensures
            r.wf(),
            r.sep() == separator,
            r.dir() == projects_dir_of(opt_view(home_dir), separator),
    {
        let base = match home_dir {
            Some(h) => h,
            None => String::from_str("."),
        };
        let projects_dir = join_path(base.as_str(), "tauri-php-projects", separator);
        ProjectManager { projects_dir, separator, framework_detector: FrameworkDetector::new() }
    }

    pub fn set_projects_directory(&mut self, path: String)
        ensures
            final(self).dir() == path@,
            final(self).sep() == old(self).sep(),
            final(self).wf() == old(self).wf(),
    {
        self.projects_dir = path;
    }

    /// The directory that holds the projects.
    pub fn projects_directory(&self) -> (r: &String)
        ensures
            r@ == self.dir(),
    {
        &self.projects_dir
    }

    /// Where a project named `name` is placed when no destination is given.
    pub fn default_destination(&self, name: &str) -> (r: String)
        requires
            self.wf(),
        ensures
            r@ == path_joined(self.dir(), name@, self.sep()),
    {
        join_path(self.projects_dir.as_str(), name, self.separator)
    }

    pub fn detect_framework(&self, scan: &ProjectScan) -> (r: Result<Framework>)
        ensures
            r matches Ok(f) && f == classify(scan@),
    {
        self.framework_detector.detect_framework(scan)
    }

    pub fn get_framework_info(&self, framework: &Framework) -> (r: FrameworkInfo)
        ensures
            describes(r, *framework),
    {
        self.framework_detector.get_framework_info(framework)
    }

    /// The runtime version a constraint string asks for; None for a
    /// constraint outside the known caret ranges.
    pub fn parse_php_version_constraint(&self, constraint: &str) -> (r: Result<Option<String>>)
        ensures
            r matches Ok(o) && opt_view(o) == constraint_version(constraint@),
    {
        if starts_with(constraint, "^8.3") {
            Ok(Some(String::from_str("8.3.0")))
        } else if starts_with(constraint, "^8.2") {
            Ok(Some(String::from_str("8.2.0")))
        } else if starts_with(constraint, "^8.1") {
            Ok(Some(String::from_str("8.1.0")))
        } else if starts_with(constraint, "^8.0") {
            Ok(Some(String::from_str("8.0.0")))
        } else if starts_with(constraint, "^7.4") {
            Ok(Some(String::from_str("7.4.0")))
        } else {
            Ok(None)
        }
    }

    /// The runtime version a project's dependency manifest asks for, given
    /// the manifest's text (None: the project has no manifest).
    pub fn detect_php_version_requirement_public(&self, composer_json: Option<&str>) -> (r: Result<
        Option<String>,
    >)
        ensures
            composer_json is None ==> (r matches Ok(o) && o is None),
            composer_json matches Some(t) ==> match php_requirement_of(t@) {
                None => r matches Err(Error::Json(_)),
                Some(None) => r matches Ok(o) && o is None,
                Some(Some(c)) => r matches Ok(o) && opt_view(o) == constraint_version(c),
            },
    {
        match composer_json {
            None => Ok(None),
            Some(text) => match read_php_requirement(text) {
                Err(msg) => Err(Error::Json(msg)),
                Ok(None) => Ok(None),
                Ok(Some(c)) => self.parse_php_version_constraint(c.as_str()),
            },
        }
    }

    /// A project's name from its repository URL.
    pub fn extract_project_name(&self, git_url: &str) -> (r: Result<String>)
        ensures
            url_path_of(git_url@) is None ==> r matches Err(Error::InvalidUrl(_)),
            url_path_of(git_url@) matches Some(p) ==> (if name_in_path(p).len() == 0 {
                r matches Err(Error::InvalidUrl(_))
            } else {
                r matches Ok(n) && n@ == name_in_path(p)
            }),
    {
        match parse_url_path(git_url) {
            Err(msg) => Err(Error::InvalidUrl(msg)),
            Ok(path) => Self::project_name_from_path(path.as_str()),
        }
    }

    /// A project's name from the path of its repository URL: leading
    /// slashes and trailing `.git` suffixes removed, then the last segment;
    /// an empty name is refused.
    pub fn project_name_from_path(path: &str) -> (r: Result<String>)
        ensures
            name_in_path(path@).len() == 0 ==> r matches Err(Error::InvalidUrl(_)),
            name_in_path(path@).len() > 0 ==> (r matches Ok(n) && n@ == name_in_path(path@)),
    {
        let ghost s = path@;
        let n = path.unicode_len();
        let mut i: usize = 0;
        assert(s.subrange(0, n as int) =~= s);
        while i < n && path.get_char(i) == '/'
            invariant
                s == path@,
                n == s.len(),
                i <= n,
                trim_leading_slashes(s) == trim_leading_slashes(s.subrange(i as int, n as int)),
            decreases n - i,
        {
            let ghost t = s.subrange(i as int, n as int);
            assert(t.drop_first() =~= s.subrange(i + 1, n as int));
            i += 1;
        }
        assert(trim_leading_slashes(s) == s.subrange(i as int, n as int));
        proof {
            reveal_strlit(".git");
        }
        let mut end: usize = n;
        while end - i >= 4 && path.get_char(end - 4) == '.' && path.get_char(end - 3) == 'g'
            && path.get_char(end - 2) == 'i' && path.get_char(end - 1) == 't'
            invariant
                s == path@,
                n == s.len(),
                i <= end <= n,
                ".git"@ == seq!['.', 'g', 'i', 't'],
                trim_git_suffixes(s.subrange(i as int, n as int)) == trim_git_suffixes(
                    s.subrange(i as int, end as int),
                ),
            decreases end,
        {
            let ghost u = s.subrange(i as int, end as int);
            assert(u.subrange(u.len() - 4, u.len() as int) =~= ".git"@);
            assert(u.subrange(0, u.len() - 4) =~= s.subrange(i as int, end - 4));
            end -= 4;
        }
        let ghost u = s.subrange(i as int, end as int);
        assert(trim_git_suffixes(u) == u) by {
            if u.len() >= 4 && u.subrange(u.len() - 4, u.len() as int) == ".git"@ {
                assert(u.subrange(u.len() - 4, u.len() as int)[0] == '.');
                assert(u.subrange(u.len() - 4, u.len() as int)[1] == 'g');
                assert(u.subrange(u.len() - 4, u.len() as int)[2] == 'i');
                assert(u.subrange(u.len() - 4, u.len() as int)[3] == 't');
            }
        }
        let mut j: usize = end;
        assert(s.subrange(end as int, end as int) =~= Seq::<char>::empty());
        assert(last_segment(u) =~= last_segment(s.subrange(i as int, j as int)) + s.subrange(
            j as int,
            end as int,
        ));
        while j > i && path.get_char(j - 1) != '/'
            invariant
                s == path@,
                u == s.subrange(i as int, end as int),
                n == s.len(),
                i <= j <= end <= n,
                last_segment(u) == last_segment(s.subrange(i as int, j as int)) + s.subrange(
                    j as int,
                    end as int,
                ),
            decreases j,
        {
            let ghost v = s.subrange(i as int, j as int);
            assert(v.drop_last() =~= s.subrange(i as int, j - 1));
            assert(v.last() == s[j - 1]);
            assert(last_segment(s.subrange(i as int, j - 1)).push(s[j - 1]) + s.subrange(
                j as int,
                end as int,
            ) =~= last_segment(s.subrange(i as int, j - 1)) + s.subrange(j - 1, end as int));
            j -= 1;
        }
        assert(last_segment(s.subrange(i as int, j as int)) =~= seq![]);
        assert(name_in_path(s) =~= s.subrange(j as int, end as int));
        if j == end {
            return Err(Error::InvalidUrl(String::from_str("Empty project name")));
        }
        let name = path.substring_char(j, end);
        Ok(String::from_str(name))
    }

    /// The scaffold a materialised project gets, chosen by words in its URL.
    pub fn scaffold_for_url(git_url: &str) -> (r: Framework)
        ensures
            r == scaffold_of(git_url@),
    {
        if contains_str(git_url, "laravel") {
            Framework::Laravel
        } else if contains_str(git_url, "symfony") {
            Framework::Symfony
        } else if contains_str(git_url, "thinkphp") || contains_str(git_url, "think") {
            Framework::ThinkPHP
        } else {
            Framework::Plain
        }
    }

    /// The setup of a freshly materialised project of category `framework`.
    pub fn setup_plan(framework: Framework, facts: &SetupFacts) -> (r: Result<SetupPlan>)
        ensures
            setup_actions(framework, *facts) is None ==> (r matches Err(Error::Config(_))),
            setup_actions(framework, *facts) matches Some(a) ==> (r matches Ok(p) && (
            p.install_dependencies,
            opt_view(p.copy_env_from),
            opt_view(p.create_dir),
            ) == a),
    {
        match framework {
            Framework::Laravel => {
                if !facts.composer_json {
                    return Err(
                        Error::Config(String::from_str("composer.json not found in Laravel project")),
                    );
                }
                let copy_env_from = if facts.env_example && !facts.env_file {
                    Some(String::from_str(".env.example"))
                } else {
                    None
                };
                Ok(
                    SetupPlan {
                        install_dependencies: facts.composer_available,
                        copy_env_from,
                        create_dir: None,
                    },
                )
            },
            Framework::Symfony => {
                if !facts.composer_json {
                    return Err(
                        Error::Config(String::from_str("composer.json not found in Symfony project")),
                    );
                }
                Ok(
                    SetupPlan {
                        install_dependencies: facts.composer_available,
                        copy_env_from: None,
                        create_dir: None,
                    },
                )
            },
            Framework::ThinkPHP => {
                let copy_env_from = if facts.config_app && facts.example_env && !facts.env_file {
                    Some(String::from_str(".example.env"))
                } else {
                    None
                };
                let create_dir = if facts.config_app {
                    None
                } else if facts.application_config {
                    if facts.runtime_dir {
                        None
                    } else {
                        Some(String::from_str("runtime"))
                    }
                } else if facts.application_upper && !facts.application_runtime_dir {
                    Some(String::from_str("Application/Runtime"))
                } else {
                    None
                };
                Ok(
                    SetupPlan {
                        install_dependencies: facts.composer_json && facts.composer_available,
                        copy_env_from,
                        create_dir,
                    },
                )
            },
            _ => Ok(SetupPlan { install_dependencies: false, copy_env_from: None, create_dir: None }),
        }
    }

    /// The entry point recorded for a set-up project, given which of
    /// `public/index.php` and `index.php` exist.
    pub fn entry_point_for(framework: Framework, public_index: bool, root_index: bool) -> (r:
        Option<String>)
        ensures
            opt_view(r) == entry_point_of(framework, public_index, root_index),
    {
        match framework {
            Framework::Laravel | Framework::Symfony => Some(String::from_str("public/index.php")),
            Framework::CodeIgniter => Some(String::from_str("index.php")),
            Framework::CakePHP => Some(String::from_str("webroot/index.php")),
            Framework::ThinkPHP => {
                if public_index {
                    Some(String::from_str("public/index.php"))
                } else if root_index {
                    Some(String::from_str("index.php"))
                } else {
                    None
                }
            },
            _ => {
                if root_index {
                    Some(String::from_str("index.php"))
                } else if public_index {
                    Some(String::from_str("public/index.php"))
                } else {
                    None
                }
            },
        }
    }
}

} // verus!
