use rust_starter_template::core_types::CoreError;
use rust_starter_template::level::{event_renders, Level};
use rust_starter_template::logging::LogSubscriberBuilder;

/// End-to-end through the real dispatcher: install the console sink at
/// `Info`, check which events it renders, lower it to `Debug` by a
/// refresh, and check again.  A second installation must fail: the
/// dispatcher is installed once per process.
#[test]
fn console_pipeline_installs_once_and_reloads() {
    let mut b = LogSubscriberBuilder::new().with_fmt_logging(Level::Info);
    assert!(b.build().is_ok());

    // The installed filter really is at Info: an Info event is rendered,
    // a Debug event is not.
    let threshold = b.fmt_installed_level().unwrap();
    assert_eq!(threshold, Level::Info);
    assert!(event_renders(&threshold, &Level::Info));
    assert!(!event_renders(&threshold, &Level::Debug));

    // Lower the threshold to Debug and swap it in place.
    b = b.with_fmt_logging(Level::Debug);
    assert!(b.refresh().is_ok());
    let threshold = b.fmt_installed_level().unwrap();
    assert_eq!(threshold, Level::Debug);
    assert!(event_renders(&threshold, &Level::Debug));
    assert!(!event_renders(&threshold, &Level::Trace));

    // Installing a second time in the same process is refused.
    assert!(matches!(b.build(), Err(CoreError::SubscriberInstallError(_))));

    // The refused installation replaced the handle with one whose sink was
    // discarded, so the next refresh surfaces a reload error.
    assert!(matches!(b.refresh(), Err(CoreError::LoggerReloadError(_))));
}
