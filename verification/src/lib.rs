//! A process-wide, runtime-reconfigurable structured logging pipeline.
//!
//! The crate composes up to three independent output sinks — a formatted
//! console sink, a system-journal sink and a daily-rotating file sink — into
//! one dispatcher that is installed once for the whole process.  After the
//! installation each sink keeps an independent minimum-severity filter that
//! can be swapped atomically while the process runs, without rebuilding the
//! pipeline.

pub mod core_types;
pub mod level;
pub mod app_config;
pub mod cli;
pub mod logging;
pub mod rotation;
