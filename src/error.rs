use vstd::prelude::*;

verus! {

/// Every failure the library reports.
#[derive(Debug, Clone)]
pub enum Error {
    Io(String),
    Http(String),
    Json(String),
    PhpBinaryNotFound,
    PhpServer(String),
    Git(String),
    FrameworkDetection(String),
    Config(String),
    Process(String),
    Archive(String),
    InvalidUrl(String),
    PermissionDenied(String),
    Unknown(String),
    /// The port is tracked by the manager or bound by another listener.
    PortUnavailable(u16),
    /// The document root of a start request does not exist.
    MissingDocumentRoot(String),
    /// The server process died within the grace period after launch.
    ProcessDiedEarly,
    /// No tracked server has this identifier.
    NotFound(String),
    /// No free port was found from the given start port on.
    PortsExhausted(u16),
}

pub type Result<T> = core::result::Result<T, Error>;

} // verus!
