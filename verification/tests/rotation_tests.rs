use rust_starter_template::logging::MAX_LOG_FILES;
use rust_starter_template::rotation::{log_file_name, RotationLedger};

#[test]
fn file_names_use_prefix_date_and_suffix() {
    assert_eq!(log_file_name("app", "2024-01-01"), "app.2024-01-01.log".to_string());
    assert_eq!(
        log_file_name("rust-starter-template", "2024-12-31"),
        "rust-starter-template.2024-12-31.log".to_string()
    );
}

#[test]
fn rotations_below_the_cap_keep_every_file() {
    let mut ledger = RotationLedger::new(MAX_LOG_FILES);
    ledger.rotate(0);
    ledger.rotate(1);
    ledger.rotate(2);
    assert_eq!(ledger.retained(), 3);
    assert_eq!(ledger.oldest(), Some(0));
}

#[test]
fn six_rotations_retain_five_files_and_drop_the_oldest() {
    let mut ledger = RotationLedger::new(MAX_LOG_FILES);
    let mut day: u64 = 0;
    while day < 6 {
        ledger.rotate(day);
        day += 1;
    }
    assert_eq!(ledger.retained(), 5);
    assert_eq!(ledger.oldest(), Some(1));
    assert!(!ledger.contains_day(0));
    assert!(ledger.contains_day(1));
    assert!(ledger.contains_day(5));
}

#[test]
fn rotation_never_exceeds_the_cap() {
    let mut ledger = RotationLedger::new(MAX_LOG_FILES);
    let mut day: u64 = 0;
    while day < 50 {
        ledger.rotate(day);
        assert!(ledger.retained() <= ledger.capacity());
        day += 1;
    }
    assert_eq!(ledger.retained(), 5);
    assert_eq!(ledger.oldest(), Some(45));
}
