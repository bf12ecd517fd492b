use rust_starter_template::app_config::{AppConfig, Database, Logging, Program};
use rust_starter_template::cli::{decimal_string, AppCommand, CompletionSubCommand};
use rust_starter_template::core_types::CoreError;
use rust_starter_template::level::Level;
use rust_starter_template::logging::{initialize_log_manager, refresh_logging_with_config, LogSubscriberBuilder};

#[test]
fn new_builder_has_no_sinks() {
    let b = LogSubscriberBuilder::new();
    assert_eq!(b.fmt_level(), None);
    assert_eq!(b.journald_level(), None);
    assert_eq!(b.logfile_level(), None);
    assert_eq!(b.logfile_prefix(), None);
    assert_eq!(b.logfile_base_path(), None);
}

#[test]
fn configuring_console_twice_keeps_last_level() {
    let b = LogSubscriberBuilder::new()
        .with_fmt_logging(Level::Info)
        .with_fmt_logging(Level::Debug);
    assert_eq!(b.fmt_level(), Some(Level::Debug));
    assert_eq!(b.journald_level(), None);
}

#[test]
fn configuring_journald_twice_keeps_last_level() {
    let b = LogSubscriberBuilder::new()
        .with_journald_logging(Level::Warn)
        .with_journald_logging(Level::Error);
    assert_eq!(b.journald_level(), Some(Level::Error));
}

#[test]
fn reconfiguring_logfile_keeps_other_parameters() {
    let b = LogSubscriberBuilder::new()
        .with_logfile_logging(Level::Info)
        .with_logfile_prefix("app".to_string())
        .with_logfile_logging(Level::Debug);
    assert_eq!(b.logfile_level(), Some(Level::Debug));
    assert_eq!(b.logfile_prefix(), Some("app".to_string()));
}

#[test]
fn logfile_has_default_directory_and_prefix() {
    let b = LogSubscriberBuilder::new().with_logfile_logging(Level::Trace);
    assert_eq!(b.logfile_base_path(), Some("logs/".to_string()));
    assert_eq!(b.logfile_prefix(), Some("rust-starter-template".to_string()));
}

#[test]
fn textual_configuration_recognises_levels() {
    let b = LogSubscriberBuilder::new().with_fmt_logging_str("DEBUG");
    assert_eq!(b.fmt_level(), Some(Level::Debug));
    let b = b.with_journald_logging_str("warn");
    assert_eq!(b.journald_level(), Some(Level::Warn));
    let b = b.with_logfile_logging_str("TrAcE");
    assert_eq!(b.logfile_level(), Some(Level::Trace));
}

#[test]
fn unrecognised_level_text_changes_nothing() {
    let b = LogSubscriberBuilder::new()
        .with_fmt_logging(Level::Info)
        .with_fmt_logging_str("verbose");
    assert_eq!(b.fmt_level(), Some(Level::Info));
    let b = b.with_journald_logging_str("nope");
    assert_eq!(b.journald_level(), None);
}

#[test]
fn syslog_identifier_is_empty_before_install() {
    let b = LogSubscriberBuilder::new();
    assert_eq!(b.get_syslog_identifier(), "".to_string());
    let b = b.with_journald_logging(Level::Trace);
    assert_eq!(b.get_syslog_identifier(), "".to_string());
}

#[test]
fn build_without_console_sink_fails() {
    let mut b = LogSubscriberBuilder::new();
    assert!(matches!(b.build(), Err(CoreError::MissingConsoleSink)));

    let mut b = LogSubscriberBuilder::new()
        .with_journald_logging(Level::Info)
        .with_logfile_logging(Level::Info);
    assert!(matches!(b.build(), Err(CoreError::MissingConsoleSink)));
    // The failed call leaves the configuration as it was.
    assert_eq!(b.journald_level(), Some(Level::Info));
    assert_eq!(b.logfile_level(), Some(Level::Info));
}

#[test]
fn startup_defaults_open_journal_and_file_wide() {
    let b = initialize_log_manager();
    assert_eq!(b.fmt_level(), Some(Level::Info));
    assert_eq!(b.journald_level(), Some(Level::Trace));
    assert_eq!(b.logfile_level(), Some(Level::Trace));
}

#[test]
fn refresh_before_install_touches_no_sink() {
    let mut b = LogSubscriberBuilder::new()
        .with_fmt_logging(Level::Info)
        .with_logfile_logging(Level::Debug);
    assert!(b.refresh().is_ok());
    assert_eq!(b.fmt_level(), Some(Level::Info));
    assert_eq!(b.logfile_level(), Some(Level::Debug));
}

fn sample_config(cli: &str, journald: &str, rolling: &str) -> AppConfig {
    AppConfig {
        program: Program { name: "sample".to_string() },
        logging: Logging {
            cli_log_level: cli.to_string(),
            journald_log_level: journald.to_string(),
            rolling_log_path: "/tmp/rust_starter_template_cfg_logs".to_string(),
            rolling_log_level: rolling.to_string(),
            rolling_log_prefix: "app".to_string(),
        },
        databases: vec![Database { name: "main".to_string(), url: "localhost".to_string() }],
    }
}

#[test]
fn refreshing_from_config_is_lenient_about_bad_levels() {
    let b = initialize_log_manager();
    let config = sample_config("DEBUG", "WARN", "bogus");
    let b = refresh_logging_with_config(b, &config).unwrap_or_else(|_| panic!());
    assert_eq!(b.fmt_level(), Some(Level::Debug));
    assert_eq!(b.journald_level(), Some(Level::Warn));
    // The malformed name left the file sink's threshold in effect.
    assert_eq!(b.logfile_level(), Some(Level::Trace));
    assert_eq!(b.logfile_prefix(), Some("app".to_string()));
    assert_eq!(b.logfile_base_path(), Some("/tmp/rust_starter_template_cfg_logs".to_string()));
}

#[test]
fn command_display_names() {
    assert_eq!(AppCommand::FileError.describe(), "FileError".to_string());
    assert_eq!(AppCommand::TasksDemo { num_tasks: 64 }.describe(), "TasksDemo(64)".to_string());
    assert_eq!(AppCommand::TasksDemo { num_tasks: 0 }.describe(), "TasksDemo(0)".to_string());
    assert_eq!(
        AppCommand::Completion { subcommand: CompletionSubCommand::Zsh }.describe(),
        "GenerateCompletions(Zsh)".to_string()
    );
    assert_eq!(
        AppCommand::Completion { subcommand: CompletionSubCommand::Bash }.describe(),
        "GenerateCompletions(Bash)".to_string()
    );
}

#[test]
fn decimal_rendering() {
    assert_eq!(decimal_string(0), "0".to_string());
    assert_eq!(decimal_string(7), "7".to_string());
    assert_eq!(decimal_string(10), "10".to_string());
    assert_eq!(decimal_string(123456), "123456".to_string());
}
