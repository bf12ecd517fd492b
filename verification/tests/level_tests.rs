use rust_starter_template::level::{event_renders, parse_level, Level};

#[test]
fn parses_canonical_lowercase_names() {
    assert_eq!(parse_level("trace"), Some(Level::Trace));
    assert_eq!(parse_level("debug"), Some(Level::Debug));
    assert_eq!(parse_level("info"), Some(Level::Info));
    assert_eq!(parse_level("warn"), Some(Level::Warn));
    assert_eq!(parse_level("error"), Some(Level::Error));
}

#[test]
fn parses_canonical_uppercase_names() {
    assert_eq!(parse_level("TRACE"), Some(Level::Trace));
    assert_eq!(parse_level("DEBUG"), Some(Level::Debug));
    assert_eq!(parse_level("INFO"), Some(Level::Info));
    assert_eq!(parse_level("WARN"), Some(Level::Warn));
    assert_eq!(parse_level("ERROR"), Some(Level::Error));
}

#[test]
fn parses_mixed_case_names() {
    assert_eq!(parse_level("TrAcE"), Some(Level::Trace));
    assert_eq!(parse_level("Debug"), Some(Level::Debug));
    assert_eq!(parse_level("iNFO"), Some(Level::Info));
    assert_eq!(parse_level("Warn"), Some(Level::Warn));
    assert_eq!(parse_level("ErroR"), Some(Level::Error));
}

#[test]
fn rejects_unknown_names() {
    assert_eq!(parse_level(""), None);
    assert_eq!(parse_level("warning"), None);
    assert_eq!(parse_level("inf"), None);
    assert_eq!(parse_level("errors"), None);
    assert_eq!(parse_level("debug "), None);
    assert_eq!(parse_level(" info"), None);
    assert_eq!(parse_level("tracing"), None);
}

#[test]
fn severity_order_is_trace_to_error() {
    assert!(Level::Trace.ordinal() < Level::Debug.ordinal());
    assert!(Level::Debug.ordinal() < Level::Info.ordinal());
    assert!(Level::Info.ordinal() < Level::Warn.ordinal());
    assert!(Level::Warn.ordinal() < Level::Error.ordinal());
}

#[test]
fn rendering_decision_compares_event_against_threshold() {
    // Threshold Info: Info and above pass, Debug and below do not.
    assert!(event_renders(&Level::Info, &Level::Info));
    assert!(event_renders(&Level::Info, &Level::Error));
    assert!(!event_renders(&Level::Info, &Level::Debug));
    assert!(!event_renders(&Level::Info, &Level::Trace));
    // Threshold Trace lets everything through.
    assert!(event_renders(&Level::Trace, &Level::Trace));
    assert!(event_renders(&Level::Trace, &Level::Error));
    // Threshold Error suppresses everything below Error.
    assert!(!event_renders(&Level::Error, &Level::Warn));
    assert!(event_renders(&Level::Error, &Level::Error));
}
