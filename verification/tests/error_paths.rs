use rust_starter_template::core_types::CoreError;
use rust_starter_template::level::Level;
use rust_starter_template::logging::LogSubscriberBuilder;

/// An uncreatable log directory is a setup error: `/dev/null` is a file,
/// so no directory can be created beneath it.  The failure surfaces
/// before the dispatcher is installed, and the file sink stays as it was.
#[test]
fn uncreatable_log_directory_fails_build() {
    let mut b = LogSubscriberBuilder::new()
        .with_fmt_logging(Level::Info)
        .with_logfile_logging(Level::Debug)
        .with_logfile_base_path("/dev/null/logs".to_string());
    assert!(matches!(
        b.build(),
        Err(CoreError::LogFileInitialisationError(_))
    ));
    // The failed call left the file sink unchanged and not installed.
    assert_eq!(b.logfile_level(), Some(Level::Debug));
    assert_eq!(b.logfile_installed_level(), None);
}
