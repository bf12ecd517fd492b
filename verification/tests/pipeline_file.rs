use rust_starter_template::level::{event_renders, Level};
use rust_starter_template::logging::LogSubscriberBuilder;

/// End-to-end through the real dispatcher with the file sink: raising the
/// file sink's threshold suppresses low-severity events there while the
/// console sink's threshold stays untouched.
#[test]
fn raising_file_threshold_leaves_console_alone() {
    let mut b = LogSubscriberBuilder::new()
        .with_fmt_logging(Level::Info)
        .with_logfile_logging(Level::Debug)
        .with_logfile_base_path("/tmp/rust_starter_template_test_logs".to_string())
        .with_logfile_prefix("app".to_string());
    assert!(b.build().is_ok());

    assert_eq!(b.fmt_installed_level(), Some(Level::Info));
    assert_eq!(b.logfile_installed_level(), Some(Level::Debug));

    // Raise only the file sink's threshold to Error.
    b = b.with_logfile_logging(Level::Error);
    assert!(b.refresh().is_ok());

    let file_threshold = b.logfile_installed_level().unwrap();
    assert_eq!(file_threshold, Level::Error);
    assert!(!event_renders(&file_threshold, &Level::Info));
    assert!(!event_renders(&file_threshold, &Level::Debug));
    assert!(event_renders(&file_threshold, &Level::Error));

    // The console sink still filters at Info.
    assert_eq!(b.fmt_installed_level(), Some(Level::Info));
}
