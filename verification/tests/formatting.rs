use log_x::{LogMetadata, Logger};
use log_x::loggers::log_levels::LogLevel;
use log_x::output::format::u32_to_string;
use log_x::terminal::colors::{colorize, Color};

#[test]
fn decimal_rendering_exact_values() {
    assert_eq!(u32_to_string(0).as_str(), "0");
    assert_eq!(u32_to_string(7).as_str(), "7");
    assert_eq!(u32_to_string(10).as_str(), "10");
    assert_eq!(u32_to_string(90210).as_str(), "90210");
    assert_eq!(u32_to_string(4294967295).as_str(), "4294967295");
}

#[test]
fn line_number_edges_in_formatted_line() {
    let mut logger = Logger::new();
    logger.set_log_level(LogLevel::Trace);
    logger.set_paranoia(true);

    let mut md = LogMetadata::new(
        "ts".to_string(),
        LogLevel::Trace,
        "f.rs".to_string(),
        "m".to_string(),
        0,
        "x".to_string(),
    );
    assert_eq!(
        logger.log(&mut md).as_deref(),
        Some("[ts - TRACE] x | File: f.rs | Line: 0 | ")
    );

    let mut md = LogMetadata::new(
        "ts".to_string(),
        LogLevel::Trace,
        "f.rs".to_string(),
        "m".to_string(),
        4294967295,
        "x".to_string(),
    );
    assert_eq!(
        logger.log(&mut md).as_deref(),
        Some("[ts - TRACE] x | File: f.rs | Line: 4294967295 | ")
    );
}

#[test]
fn empty_message_still_formats() {
    let mut logger = Logger::new();
    logger.set_log_level(LogLevel::Trace);
    let mut md = LogMetadata::new(
        "ts".to_string(),
        LogLevel::Debug,
        "f.rs".to_string(),
        "m".to_string(),
        1,
        "".to_string(),
    );
    assert_eq!(logger.log(&mut md).as_deref(), Some("[ts - DEBUG] "));
}

#[test]
fn submit_stamps_a_real_timestamp() {
    let mut logger = Logger::new();
    logger.set_log_level(LogLevel::Info);
    let (line, dest) = logger
        .submit(LogLevel::Error, "core", "main.rs", 12, "boom")
        .expect("an Error event passes an Info threshold");
    assert!(dest.stdout);
    assert!(line.starts_with('['), "line: {line}");
    let tail = " - ERROR] boom";
    let idx = line.find(tail).expect("severity and message follow the timestamp");
    assert!(idx >= 1 + 19, "the timestamp has at least 19 characters: {line}");
    assert_eq!(&line[idx + tail.len()..], "");
}

#[test]
fn submit_drops_below_threshold() {
    let mut logger = Logger::new();
    logger.set_log_level(LogLevel::Warn);
    assert!(logger.submit(LogLevel::Info, "core", "main.rs", 12, "quiet").is_none());
}

#[test]
fn metadata_getters_mirror_construction() {
    let md = LogMetadata::new(
        "2025-02-03 04:05:06".to_string(),
        LogLevel::Warn,
        "lib.rs".to_string(),
        "net::http".to_string(),
        88,
        "slow response".to_string(),
    );
    assert_eq!(md.timestamp(), "2025-02-03 04:05:06");
    assert_eq!(md.level(), LogLevel::Warn);
    assert_eq!(md.file(), "lib.rs");
    assert_eq!(md.module(), "net::http");
    assert_eq!(md.line(), 88);
    assert_eq!(md.message(), "slow response");
    assert!(!md.logging_from_module());
    assert!(md.log_destinations().stdout);
}

#[test]
fn global_display_snapshot() {
    let mut logger = Logger::new();
    assert_eq!(
        logger.display().as_str(),
        "DefaultLogger { level: OFF, paranoia: false, stdout: true, file: none }"
    );
    logger.set_log_level(LogLevel::Debug);
    logger.set_paranoia(true);
    logger.log_to_file("app.log".to_string());
    assert_eq!(
        logger.display().as_str(),
        "DefaultLogger { level: DEBUG, paranoia: true, stdout: true, file: app.log }"
    );
}

#[test]
fn module_debug_snapshot() {
    let mut logger = Logger::new();
    logger.set_mod_log_level("auth", LogLevel::Trace, false);
    assert_eq!(
        logger.debug_mod_logger("auth").as_str(),
        "ModLogger { module: auth, level: TRACE, paranoia: false, stdout: true, file: none }"
    );
}

#[test]
fn ansi_codes_are_exact() {
    assert_eq!(Color::Red.to_ansi_code(), "\x1b[31m");
    assert_eq!(Color::Green.to_ansi_code(), "\x1b[32m");
    assert_eq!(Color::Yellow.to_ansi_code(), "\x1b[33m");
    assert_eq!(Color::Blue.to_ansi_code(), "\x1b[34m");
    assert_eq!(Color::Magenta.to_ansi_code(), "\x1b[35m");
    assert_eq!(Color::Cyan.to_ansi_code(), "\x1b[36m");
    assert_eq!(Color::Gray.to_ansi_code(), "\x1b[90m");
    assert_eq!(Color::White.to_ansi_code(), "\x1b[37m");
    assert_eq!(Color::Black.to_ansi_code(), "\x1b[30m");
    assert_eq!(Color::Reset.to_ansi_code(), "\x1b[0m");
}

#[test]
fn colorize_wraps_and_resets() {
    assert_eq!(colorize("hi", Color::Red).as_str(), "\x1b[31mhi\x1b[0m");
    assert_eq!(colorize("", Color::Cyan).as_str(), "\x1b[36m\x1b[0m");
}
