//! A local development-server orchestrator for PHP projects, verified with
//! Verus: it classifies a project directory by the framework it uses,
//! describes each framework's conventions, searches for free ports, and keeps
//! the registry of server processes started for projects. Gathering facts
//! from the file system and running processes is left to the caller, which
//! hands the library plain values.

use vstd::prelude::*;

pub mod error;
pub mod framework_detector;
pub mod models;
pub mod paths;
pub mod php_binary;
pub mod php_server;
pub mod port;
pub mod project_manager;
pub mod scan;

verus! {

} // verus!
