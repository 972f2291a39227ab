use log_x::{LogMetadata, Logger};
use log_x::loggers::log_levels::LogLevel;

fn event(level: LogLevel, module: &str, line: u32) -> LogMetadata {
    LogMetadata::new(
        "2025-01-01 00:00:00".to_string(),
        level,
        "src/main.rs".to_string(),
        module.to_string(),
        line,
        "hello".to_string(),
    )
}

#[test]
fn scenario_global_info_without_paranoia() {
    let mut logger = Logger::new();
    logger.set_log_level(LogLevel::Info);

    for level in [LogLevel::Error, LogLevel::Warn, LogLevel::Info] {
        let mut md = event(level, "core", 7);
        let line = logger.log(&mut md);
        let expected = format!(
            "[2025-01-01 00:00:00 - {}] hello",
            level.to_display_string()
        );
        assert_eq!(line.as_deref(), Some(expected.as_str()));
        assert!(md.log_destinations.stdout);
        assert_eq!(md.log_destinations.file, None);
        assert!(!md.logging_from_module);
    }

    for level in [LogLevel::Debug, LogLevel::Trace] {
        let mut md = event(level, "core", 7);
        assert_eq!(logger.log(&mut md), None, "{:?} must be dropped", level);
    }
}

#[test]
fn scenario_global_info_with_paranoia() {
    let mut logger = Logger::new();
    logger.set_log_level(LogLevel::Info);
    logger.set_paranoia(true);

    for level in [LogLevel::Error, LogLevel::Warn, LogLevel::Info] {
        let mut md = event(level, "core", 42);
        let line = logger.log(&mut md);
        let expected = format!(
            "[2025-01-01 00:00:00 - {}] hello | File: src/main.rs | Line: 42 | ",
            level.to_display_string()
        );
        assert_eq!(line.as_deref(), Some(expected.as_str()));
    }
}

#[test]
fn scenario_module_file_destination() {
    let mut logger = Logger::new();
    logger.set_log_level(LogLevel::Info);
    logger.set_mod_log_level("auth", LogLevel::Trace, false);
    logger.set_mod_log_to_file("auth", "auth.log".to_string());
    logger.remove_mod_log_stdout("auth");

    let mut auth_md = event(LogLevel::Error, "auth", 1);
    let line = logger.log(&mut auth_md);
    assert!(line.is_some());
    assert!(auth_md.logging_from_module);
    assert!(!auth_md.log_destinations.stdout, "auth lines must not reach stdout");
    assert_eq!(auth_md.log_destinations.file, Some("auth.log".to_string()));

    let mut other_md = event(LogLevel::Error, "db", 1);
    let line = logger.log(&mut other_md);
    assert!(line.is_some());
    assert!(!other_md.logging_from_module);
    assert!(other_md.log_destinations.stdout, "unconfigured modules follow the global sinks");
    assert_eq!(other_md.log_destinations.file, None);
}

#[test]
fn scenario_silenced_module_reaches_no_sink() {
    let mut logger = Logger::new();
    logger.set_log_level(LogLevel::Trace);
    logger.set_mod_log_level("X", LogLevel::Warn, false);
    logger.set_mod_logging_silent("X");

    let mut md = event(LogLevel::Error, "X", 9);
    let line = logger.log(&mut md);
    assert!(line.is_some(), "the threshold still passes the event");
    assert!(!md.log_destinations.stdout);
    assert_eq!(md.log_destinations.file, None);

    let mut low = event(LogLevel::Info, "X", 9);
    assert_eq!(logger.log(&mut low), None, "below the override threshold");
}

#[test]
fn fallback_matches_global_exactly() {
    let mut logger = Logger::new();
    logger.set_log_level(LogLevel::Warn);
    logger.set_paranoia(true);
    logger.log_to_file("global.log".to_string());

    let mut md = event(LogLevel::Warn, "nobody.configured.me", 3);
    let enabled = logger.enabled(&mut md);
    assert!(enabled);
    assert!(!md.logging_from_module);
    assert!(md.log_destinations.stdout);
    assert_eq!(md.log_destinations.file, Some("global.log".to_string()));
    assert!(logger.effective_paranoia("nobody.configured.me"));

    let mut md = event(LogLevel::Info, "nobody.configured.me", 3);
    assert!(!logger.enabled(&mut md));
}

#[test]
fn override_ignores_permissive_global() {
    let mut logger = Logger::new();
    logger.set_log_level(LogLevel::Trace);
    logger.set_mod_log_level("M", LogLevel::Warn, true);

    let mut info_md = event(LogLevel::Info, "M", 5);
    assert_eq!(logger.log(&mut info_md), None, "the global Trace threshold must be ignored");

    let mut warn_md = event(LogLevel::Warn, "M", 5);
    assert!(logger.log(&mut warn_md).is_some());

    let mut err_md = event(LogLevel::Error, "M", 5);
    let line = logger.log(&mut err_md);
    assert_eq!(
        line.as_deref(),
        Some("[2025-01-01 00:00:00 - ERROR] hello | File: src/main.rs | Line: 5 | "),
        "module paranoia applies even though the global flag is off"
    );
}

#[test]
fn last_registration_wins_and_keeps_destinations() {
    let mut logger = Logger::new();
    logger.set_mod_log_level("svc", LogLevel::Debug, true);
    logger.set_mod_log_to_file("svc", "svc.log".to_string());
    logger.set_mod_log_level("svc", LogLevel::Error, false);

    assert_eq!(logger.get_mod_log_level("svc"), Some(LogLevel::Error));
    assert!(!logger.get_mod_paranoia("svc"));
    let dest = logger.get_mod_log_destination("svc").unwrap();
    assert_eq!(dest.file, Some("svc.log".to_string()), "re-registration keeps destinations");
    assert!(dest.stdout);
}

#[test]
fn destination_mutators_without_policy_are_noops() {
    let mut logger = Logger::new();
    logger.set_mod_log_to_file("ghostly", "g.log".to_string());
    logger.set_mod_log_to_stdout("ghostly");
    logger.remove_mod_log_to_file("ghostly");
    logger.remove_mod_log_stdout("ghostly");
    logger.set_mod_logging_silent("ghostly");
    assert_eq!(logger.get_mod_log_destination("ghostly"), None);
    assert_eq!(logger.get_mod_log_level("ghostly"), None);
}

#[test]
fn module_getters_report_absence() {
    let mut logger = Logger::new();
    assert_eq!(logger.get_mod_name("auth"), "".to_string());
    assert_eq!(logger.get_mod_log_level("auth"), None);
    assert!(!logger.get_mod_paranoia("auth"));
    assert_eq!(logger.get_mod_log_destination("auth"), None);
    assert_eq!(logger.debug_mod_logger("auth"), "".to_string());

    logger.set_mod_log_level("auth", LogLevel::Debug, true);
    assert_eq!(logger.get_mod_name("auth"), "auth".to_string());
    assert_eq!(logger.get_mod_log_level("auth"), Some(LogLevel::Debug));
    assert!(logger.get_mod_paranoia("auth"));
    let m = logger.get_mod_logger("auth").unwrap();
    assert_eq!(m.log_level(), LogLevel::Debug);
    assert!(m.paranoia());
}

#[test]
fn distinct_modules_keep_their_overrides() {
    let mut logger = Logger::new();
    logger.set_mod_log_level("a", LogLevel::Warn, false);
    logger.set_mod_log_level("b", LogLevel::Debug, true);
    logger.set_mod_logging_silent("a");

    assert_eq!(logger.get_mod_log_level("a"), Some(LogLevel::Warn));
    assert_eq!(logger.get_mod_log_level("b"), Some(LogLevel::Debug));
    let db = logger.get_mod_log_destination("b").unwrap();
    assert!(db.stdout, "silencing a must not touch b");
}

#[test]
fn enabled_requires_severity_at_least_threshold() {
    let mut logger = Logger::new();
    logger.set_log_level(LogLevel::Error);
    let mut md = event(LogLevel::Warn, "m", 1);
    assert!(!logger.enabled(&mut md));
    let mut md = event(LogLevel::Error, "m", 1);
    assert!(logger.enabled(&mut md));
}

#[test]
fn global_remove_stdout_twice_stays_removed() {
    let mut logger = Logger::new();
    logger.log_to_file("keep.log".to_string());
    logger.remove_stdout();
    logger.remove_stdout();
    let dest = logger.log_destination();
    assert!(!dest.stdout, "a second removal must not toggle stdout back");
    assert_eq!(dest.file, Some("keep.log".to_string()));
}

#[test]
fn module_remove_stdout_twice_stays_removed() {
    let mut logger = Logger::new();
    logger.set_mod_log_level("m", LogLevel::Info, false);
    logger.set_mod_log_to_file("m", "m.log".to_string());
    logger.remove_mod_log_stdout("m");
    logger.remove_mod_log_stdout("m");
    let dest = logger.get_mod_log_destination("m").unwrap();
    assert!(!dest.stdout, "a second removal must not toggle stdout back");
    assert_eq!(dest.file, Some("m.log".to_string()));
}

#[test]
fn fresh_logger_emits_nothing() {
    let logger = Logger::new();
    let mut md = event(LogLevel::Error, "m", 1);
    assert_eq!(logger.log(&mut md), None, "the default threshold is Off");
}
