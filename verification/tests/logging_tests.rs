use noctura::logging::{log_level, log_line, LogLevel};

#[test]
fn levels_map_to_kinds() {
    assert_eq!(log_level(0), LogLevel::Info);
    assert_eq!(log_level(1), LogLevel::Warn);
    assert_eq!(log_level(2), LogLevel::Error);
    assert_eq!(log_level(3), LogLevel::Other);
    assert_eq!(log_level(-1), LogLevel::Other);
    assert_eq!(log_level(i8::MAX), LogLevel::Other);
    assert_eq!(log_level(i8::MIN), LogLevel::Other);
}

#[test]
fn prefixes_per_kind() {
    assert_eq!(LogLevel::Info.prefix(), "[INFO] ");
    assert_eq!(LogLevel::Warn.prefix(), "[WARN] ");
    assert_eq!(LogLevel::Error.prefix(), "[ERROR] ");
    assert_eq!(LogLevel::Other.prefix(), "[LOG] ");
}

#[test]
fn info_line_goes_to_stdout() {
    let line = log_line("started", 0);
    assert_eq!(line.text, "[INFO] started");
    assert!(!line.to_stderr);
}

#[test]
fn warn_line_goes_to_stdout() {
    let line = log_line("slow frame", 1);
    assert_eq!(line.text, "[WARN] slow frame");
    assert!(!line.to_stderr);
}

#[test]
fn error_line_goes_to_stderr() {
    let line = log_line("no output", 2);
    assert_eq!(line.text, "[ERROR] no output");
    assert!(line.to_stderr);
}

#[test]
fn other_levels_are_plain_log_lines() {
    let line = log_line("hello", 7);
    assert_eq!(line.text, "[LOG] hello");
    assert!(!line.to_stderr);
    let line = log_line("", -3);
    assert_eq!(line.text, "[LOG] ");
    assert!(!line.to_stderr);
}
