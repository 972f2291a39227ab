use log_x::loggers::log_levels::LogLevel;

#[test]
fn ordering_all_pairs() {
    let levels = [
        LogLevel::Trace,
        LogLevel::Debug,
        LogLevel::Info,
        LogLevel::Warn,
        LogLevel::Error,
    ];
    for (i, a) in levels.iter().enumerate() {
        for (j, b) in levels.iter().enumerate() {
            assert_eq!(a.passes(*b), i >= j, "severity {:?} against threshold {:?}", a, b);
        }
    }
}

#[test]
fn off_threshold_accepts_nothing() {
    assert!(!LogLevel::Trace.passes(LogLevel::Off));
    assert!(!LogLevel::Debug.passes(LogLevel::Off));
    assert!(!LogLevel::Info.passes(LogLevel::Off));
    assert!(!LogLevel::Warn.passes(LogLevel::Off));
    assert!(!LogLevel::Error.passes(LogLevel::Off));
}

#[test]
fn ranks_are_increasing() {
    assert_eq!(LogLevel::Trace.rank(), 0);
    assert_eq!(LogLevel::Debug.rank(), 1);
    assert_eq!(LogLevel::Info.rank(), 2);
    assert_eq!(LogLevel::Warn.rank(), 3);
    assert_eq!(LogLevel::Error.rank(), 4);
    assert_eq!(LogLevel::Off.rank(), 5);
}

#[test]
fn round_trip_all_levels() {
    let levels = [
        LogLevel::Trace,
        LogLevel::Debug,
        LogLevel::Info,
        LogLevel::Warn,
        LogLevel::Error,
        LogLevel::Off,
    ];
    for level in levels {
        assert_eq!(LogLevel::from_str(level.to_display_string().as_str()), level);
    }
}

#[test]
fn round_trip_is_case_insensitive() {
    assert_eq!(LogLevel::from_str("trace"), LogLevel::Trace);
    assert_eq!(LogLevel::from_str("TrAcE"), LogLevel::Trace);
    assert_eq!(LogLevel::from_str("debug"), LogLevel::Debug);
    assert_eq!(LogLevel::from_str("info"), LogLevel::Info);
    assert_eq!(LogLevel::from_str("Warn"), LogLevel::Warn);
    assert_eq!(LogLevel::from_str("error"), LogLevel::Error);
    assert_eq!(LogLevel::from_str("off"), LogLevel::Off);
}

#[test]
fn unrecognized_level_parses_to_off() {
    assert_eq!(LogLevel::from_str(""), LogLevel::Off);
    assert_eq!(LogLevel::from_str("verbose"), LogLevel::Off);
    assert_eq!(LogLevel::from_str("WARNING"), LogLevel::Off);
    assert_eq!(LogLevel::from_str("TRACE "), LogLevel::Off);
}

#[test]
fn display_names_are_canonical() {
    assert_eq!(LogLevel::Trace.to_display_string().as_str(), "TRACE");
    assert_eq!(LogLevel::Debug.to_display_string().as_str(), "DEBUG");
    assert_eq!(LogLevel::Info.to_display_string().as_str(), "INFO");
    assert_eq!(LogLevel::Warn.to_display_string().as_str(), "WARN");
    assert_eq!(LogLevel::Error.to_display_string().as_str(), "ERROR");
    assert_eq!(LogLevel::Off.to_display_string().as_str(), "OFF");
    assert_eq!(LogLevel::Error.as_str(), "ERROR");
}

#[test]
fn default_level_is_off() {
    assert_eq!(LogLevel::default(), LogLevel::Off);
}
