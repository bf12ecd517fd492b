//! The application configuration as plain, already-resolved values.  The
//! configuration collaborator (files, environment, overrides) lives
//! outside the library and hands these structures over.

use vstd::prelude::*;

verus! {

/// Connection data of one database.
pub struct Database {
    pub name: String,
    pub url: String,
}

/// What the logging pipeline is configured with: one textual severity
/// name per sink, and the file sink's directory and file name prefix.
pub struct Logging {
    pub cli_log_level: String,
    pub journald_log_level: String,
    pub rolling_log_path: String,
    pub rolling_log_level: String,
    pub rolling_log_prefix: String,
}

/// General program data.
pub struct Program {
    pub name: String,
}

/// The whole application configuration.
pub struct AppConfig {
    pub program: Program,
    pub logging: Logging,
    pub databases: Vec<Database>,
}

} // verus!
