use raycore::utils::{log_type_level, set_log_type_level, should_emit, TraceLog};
use raycore::{level_of_type, TraceLogLevel, TraceLogType};

#[test]
fn type_codes_match_native_numbering() {
    assert_eq!(TraceLogType::Trace.code(), 1);
    assert_eq!(TraceLogType::Debug.code(), 2);
    assert_eq!(TraceLogType::Info.code(), 3);
    assert_eq!(TraceLogType::Warning.code(), 4);
    assert_eq!(TraceLogType::Error.code(), 5);
    assert_eq!(TraceLogType::Fatal.code(), 6);
}

#[test]
fn level_codes_match_native_numbering() {
    assert_eq!(TraceLogLevel::All.code(), 0);
    assert_eq!(TraceLogLevel::Trace.code(), 1);
    assert_eq!(TraceLogLevel::Debug.code(), 2);
    assert_eq!(TraceLogLevel::Info.code(), 3);
    assert_eq!(TraceLogLevel::Warning.code(), 4);
    assert_eq!(TraceLogLevel::Error.code(), 5);
    assert_eq!(TraceLogLevel::Fatal.code(), 6);
    assert_eq!(TraceLogLevel::Disabled.code(), 7);
}

#[test]
fn type_from_code_round_trips() {
    for code in 1u8..=6 {
        let ty = TraceLogType::from_code(code).unwrap();
        assert_eq!(ty.code(), code);
    }
    assert_eq!(TraceLogType::from_code(0), None);
    assert_eq!(TraceLogType::from_code(7), None);
}

#[test]
fn level_from_code_round_trips() {
    for code in 0u8..=7 {
        let level = TraceLogLevel::from_code(code).unwrap();
        assert_eq!(level.code(), code);
    }
    assert_eq!(TraceLogLevel::from_code(8), None);
    assert_eq!(TraceLogLevel::from_code(255), None);
}

#[test]
fn level_of_type_keeps_priority() {
    assert_eq!(level_of_type(TraceLogType::Trace), TraceLogLevel::Trace);
    assert_eq!(level_of_type(TraceLogType::Info), TraceLogLevel::Info);
    assert_eq!(level_of_type(TraceLogType::Fatal), TraceLogLevel::Fatal);
}

#[test]
fn threshold_filters_lower_priorities() {
    assert!(TraceLogLevel::Info.allows(TraceLogType::Info));
    assert!(TraceLogLevel::Info.allows(TraceLogType::Warning));
    assert!(!TraceLogLevel::Info.allows(TraceLogType::Debug));
    assert!(TraceLogLevel::All.allows(TraceLogType::Trace));
    assert!(!TraceLogLevel::Disabled.allows(TraceLogType::Fatal));
}

#[test]
fn trace_log_state_defaults_to_info() {
    let log = TraceLog::new();
    assert_eq!(log_type_level(&log), TraceLogLevel::Info);
    assert!(should_emit(&log, TraceLogType::Error));
    assert!(!should_emit(&log, TraceLogType::Trace));
}

#[test]
fn trace_log_level_can_be_raised() {
    let mut log = TraceLog::new();
    set_log_type_level(&mut log, TraceLogLevel::Error);
    assert_eq!(log_type_level(&log), TraceLogLevel::Error);
    assert!(!should_emit(&log, TraceLogType::Warning));
    assert!(should_emit(&log, TraceLogType::Error));
    assert!(should_emit(&log, TraceLogType::Fatal));
}
