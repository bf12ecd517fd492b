//! The error taxonomy shared across the library.

use vstd::prelude::*;

verus! {

#[verifier::external_type_specification]
#[verifier::external_body]
pub struct ExConfigError(config::ConfigError);

#[verifier::external_type_specification]
#[verifier::external_body]
pub struct ExInstallError(color_eyre::eyre::InstallError);

/// Typed failures surfaced to callers.  Setup failures (an unavailable
/// journal transport, an uncreatable log directory, an already-installed
/// dispatcher, a missing mandatory console sink) are fatal to `build` and
/// are not retried; reload failures are surfaced by `refresh`.
pub enum CoreError {
    /// A background task failed with the given message.
    GeneralTaskError(String),
    /// An I/O resource could not be created, e.g. the journal transport is
    /// unavailable.
    IoError(std::io::Error),
    /// The rotating log file destination could not be initialised.
    LogFileInitialisationError(tracing_appender::rolling::InitError),
    /// A sink's live filter handle could not be updated.
    LoggerReloadError(tracing_subscriber::reload::Error),
    /// The process-wide error-report handler could not be installed.
    ErrorHandlerInitialisationError(color_eyre::eyre::InstallError),
    /// The configuration collaborator failed.
    AppConfigError(config::ConfigError),
    /// The async runtime failed with the given message.
    GeneralTokioError(String),
    /// `build` was called although the mandatory console sink was never
    /// configured.
    MissingConsoleSink,
    /// A dispatcher was already installed in this process; installation is
    /// a one-shot operation.
    SubscriberInstallError(tracing_subscriber::util::TryInitError),
}

pub type CoreResult<T> = Result<T, CoreError>;

} // verus!
