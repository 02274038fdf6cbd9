use lala_lib::logconfig::{global_log_level, log_level_for, parse_level, LogLevel};

#[test]
fn no_environment_value_means_info() {
    assert_eq!(log_level_for(None), LogLevel::Info);
}

#[test]
fn plain_level_names_are_taken_whole() {
    assert_eq!(log_level_for(Some("debug")), LogLevel::Debug);
    assert_eq!(log_level_for(Some("TRACE")), LogLevel::Trace);
    assert_eq!(log_level_for(Some("Off")), LogLevel::Off);
}

#[test]
fn module_setting_is_found_in_a_list() {
    assert_eq!(
        log_level_for(Some("foo=warn,lala_lib=trace")),
        LogLevel::Trace
    );
    assert_eq!(log_level_for(Some("lala_lib=error")), LogLevel::Error);
}

#[test]
fn list_without_module_setting_means_info() {
    assert_eq!(log_level_for(Some("foo=warn,bar=debug")), LogLevel::Info);
}

#[test]
fn module_setting_without_level_means_info() {
    assert_eq!(log_level_for(Some("foo=warn,lala_lib")), LogLevel::Info);
}

#[test]
fn unreadable_module_level_means_info() {
    assert_eq!(log_level_for(Some("lala_lib=loudest")), LogLevel::Info);
}

#[test]
fn level_names_parse_case_insensitively() {
    assert_eq!(parse_level("off"), Some(LogLevel::Off));
    assert_eq!(parse_level("Error"), Some(LogLevel::Error));
    assert_eq!(parse_level("WARN"), Some(LogLevel::Warn));
    assert_eq!(parse_level("info"), Some(LogLevel::Info));
    assert_eq!(parse_level("dEbUg"), Some(LogLevel::Debug));
    assert_eq!(parse_level("trace"), Some(LogLevel::Trace));
    assert_eq!(parse_level("verbose"), None);
}

#[test]
fn other_modules_default_to_warn() {
    assert_eq!(global_log_level(), LogLevel::Warn);
}
