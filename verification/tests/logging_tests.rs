use ferrium::logging::{log_filter_directives, parse_level, LogLevel};

#[test]
fn levels_read_by_name_in_any_case_and_by_number() {
    assert_eq!(parse_level("info"), Some(LogLevel::Info));
    assert_eq!(parse_level("WaRn"), Some(LogLevel::Warn));
    assert_eq!(parse_level("ERROR"), Some(LogLevel::Error));
    assert_eq!(parse_level("1"), Some(LogLevel::Error));
    assert_eq!(parse_level("+5"), Some(LogLevel::Trace));
    assert_eq!(parse_level("04"), Some(LogLevel::Debug));
    assert_eq!(parse_level("0"), None);
    assert_eq!(parse_level("6"), None);
    assert_eq!(parse_level("verbose"), None);
    assert_eq!(parse_level(""), None);
    assert_eq!(parse_level("infos"), None);
}

#[test]
fn directives_name_the_level() {
    let (f, o) = log_filter_directives("debug").unwrap();
    assert_eq!(f, "ferrium=DEBUG");
    assert_eq!(o, "openraft=debug");
    let (f, o) = log_filter_directives("info").unwrap();
    assert_eq!(f, "ferrium=INFO");
    assert_eq!(o, "openraft=debug");
    let (f, o) = log_filter_directives("trace").unwrap();
    assert_eq!(f, "ferrium=TRACE");
    assert_eq!(o, "openraft=info");
}

#[test]
fn invalid_level_is_refused_with_the_parse_error() {
    let m = log_filter_directives("loud").unwrap_err();
    assert_eq!(
        m,
        "Invalid log level: error parsing level: expected one of \"error\", \"warn\", \"info\", \"debug\", \"trace\", or a number 1-5"
    );
}
