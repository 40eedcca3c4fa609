use vstd::prelude::*;

verus! {

/// The closed set of project categories a directory can be classified into.
#[derive(Debug, Clone, Copy, PartialEq, Eq, Structural)]
pub enum Framework {
    Laravel,
    Symfony,
    CodeIgniter,
    CakePHP,
    Zend,
    Yii,
    Phalcon,
    Slim,
    Lumen,
    ThinkPHP,
    Plain,
    Unknown,
}

/// Display label of each category.
pub open spec fn framework_label(f: Framework) -> Seq<char> {
    match f {
        Framework::Laravel => "Laravel"@,
        Framework::Symfony => "Symfony"@,
        Framework::CodeIgniter => "CodeIgniter"@,
        Framework::CakePHP => "CakePHP"@,
        Framework::Zend => "Zend"@,
        Framework::Yii => "Yii"@,
        Framework::Phalcon => "Phalcon"@,
        Framework::Slim => "Slim"@,
        Framework::Lumen => "Lumen"@,
        Framework::ThinkPHP => "ThinkPHP"@,
        Framework::Plain => "Plain PHP"@,
        Framework::Unknown => "Unknown"@,
    }
}

impl Framework {
    pub fn as_str(&self) -> (r: &'static str)
        ensures
            r@ == framework_label(*self),
    {
        match self {
            Framework::Laravel => "Laravel",
            Framework::Symfony => "Symfony",
            Framework::CodeIgniter => "CodeIgniter",
            Framework::CakePHP => "CakePHP",
            Framework::Zend => "Zend",
            Framework::Yii => "Yii",
            Framework::Phalcon => "Phalcon",
            Framework::Slim => "Slim",
            Framework::Lumen => "Lumen",
            Framework::ThinkPHP => "ThinkPHP",
            Framework::Plain => "Plain PHP",
            Framework::Unknown => "Unknown",
        }
    }
}

/// Port a server binds when a request names none.
pub const DEFAULT_PORT: u16 = 8000;

/// Runtime version used when neither a request nor the configuration names one.
pub const DEFAULT_PHP_VERSION: &'static str = "8.3.0";

/// User preferences: known runtime versions, defaults, and where projects live.
#[derive(Debug, Clone)]
pub struct Config {
    pub php_versions: Vec<String>,
    pub default_php_version: Option<String>,
    pub download_base_url: String,
    pub projects_dir: Option<String>,
    pub server_config: ServerConfig,
}

impl Default for Config {
    fn default() -> (r: Self)
        ensures
            r.php_versions@.len() == 3,
            r.php_versions@[0]@ == "8.3.0"@,
            r.php_versions@[1]@ == "8.2.0"@,
            r.php_versions@[2]@ == "8.1.0"@,
            r.default_php_version matches Some(v) && v@ == "8.3.0"@,
            r.download_base_url@ == "https://github.com/NativePHP/php-bin/releases/download"@,
            r.projects_dir is None,
            r.server_config.default_port == DEFAULT_PORT,
            r.server_config.default_host@ == "127.0.0.1"@,
            r.server_config.auto_reload,
            r.server_config.document_root is None,
    {
        Config {
            php_versions: vec![
                String::from_str("8.3.0"),
                String::from_str("8.2.0"),
                String::from_str("8.1.0"),
            ],
            default_php_version: Some(String::from_str("8.3.0")),
            download_base_url: String::from_str(
                "https://github.com/NativePHP/php-bin/releases/download",
            ),
            projects_dir: None,
            server_config: ServerConfig::default(),
        }
    }
}

/// Defaults applied to server start requests.
#[derive(Debug, Clone)]
pub struct ServerConfig {
    pub default_port: u16,
    pub default_host: String,
    pub auto_reload: bool,
    pub document_root: Option<String>,
}

impl Default for ServerConfig {
    fn default() -> (r: Self)
        ensures
            r.default_port == DEFAULT_PORT,
            r.default_host@ == "127.0.0.1"@,
            r.auto_reload,
            r.document_root is None,
    {
        ServerConfig {
            default_port: DEFAULT_PORT,
            default_host: String::from_str("127.0.0.1"),
            auto_reload: true,
            document_root: None,
        }
    }
}

/// An installed (or downloadable) runtime binary.
#[derive(Debug, Clone)]
pub struct PhpBinaryInfo {
    pub version: String,
    pub path: String,
    pub is_downloaded: bool,
    pub download_url: Option<String>,
    pub size: Option<u64>,
}

/// Point-in-time view of a tracked server.
#[derive(Debug, Clone)]
pub struct ServerStatus {
    pub is_running: bool,
    pub pid: Option<u32>,
    pub port: Option<u16>,
    pub host: Option<String>,
    pub document_root: Option<String>,
    pub started_at: Option<String>,
}

/// What is known of a project directory.
#[derive(Debug, Clone)]
pub struct ProjectInfo {
    pub name: String,
    pub path: String,
    pub framework: Option<Framework>,
    pub git_url: Option<String>,
    pub php_version: Option<String>,
    pub entry_point: Option<String>,
}

/// A request to serve a project directory.
#[derive(Debug, Clone)]
pub struct StartServerRequest {
    pub project_path: String,
    pub port: Option<u16>,
    pub host: Option<String>,
    pub php_version: Option<String>,
    pub document_root: Option<String>,
}

/// A request to materialise a project from a repository URL.
#[derive(Debug, Clone)]
pub struct CloneProjectRequest {
    pub git_url: String,
    pub destination: Option<String>,
    pub branch: Option<String>,
    pub auto_setup: bool,
}

} // verus!
