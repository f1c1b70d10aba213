use pslog::cli::{LogEntry, LogLevel};
use pslog::level::{infer_level, level_from_lowercase};
use pslog::session::log_entry_for_line;

#[test]
fn stderr_lines_are_errors() {
    assert_eq!(infer_level("all good", true), LogLevel::ERROR);
    assert_eq!(infer_level("", true), LogLevel::ERROR);
    assert_eq!(infer_level("debug: x", true), LogLevel::ERROR);
}

#[test]
fn keywords_decide_stdout_levels() {
    assert_eq!(infer_level("ERROR: disk full", false), LogLevel::ERROR);
    assert_eq!(infer_level("Warning: low memory", false), LogLevel::WARN);
    assert_eq!(infer_level("[DEBUG] tick", false), LogLevel::DEBUG);
    assert_eq!(infer_level("server started", false), LogLevel::INFO);
    assert_eq!(infer_level("", false), LogLevel::INFO);
}

#[test]
fn error_comes_before_warn_and_debug() {
    assert_eq!(infer_level("debug warn error", false), LogLevel::ERROR);
    assert_eq!(infer_level("debug then warn", false), LogLevel::WARN);
}

#[test]
fn lowercasing_happens_before_matching() {
    // An uppercase form only matches once lowercased.
    assert_eq!(level_from_lowercase("ERROR"), LogLevel::INFO);
    assert_eq!(infer_level("ERROR", false), LogLevel::ERROR);
    assert_eq!(infer_level("DeBuG", false), LogLevel::DEBUG);
}

#[test]
fn keywords_may_be_inside_words() {
    assert_eq!(infer_level("forewarned", false), LogLevel::WARN);
    assert_eq!(infer_level("errors: 0", false), LogLevel::ERROR);
    assert_eq!(infer_level("erro r", false), LogLevel::INFO);
}

#[test]
fn entries_keep_line_and_stamp() {
    let e = log_entry_for_line("warn: slow".to_string(), false, 42);
    assert_eq!(
        e,
        LogEntry { ts: 42, level: LogLevel::WARN, message: "warn: slow".to_string() }
    );
    let e = log_entry_for_line("fine".to_string(), true, 7);
    assert_eq!(e.level, LogLevel::ERROR);
    assert_eq!(e.message, "fine");
}

#[test]
fn ascii_case_does_not_change_level() {
    for line in ["Error in module", "WARNING: x", "Debugging", "plain text", "eRrOr"] {
        let level = infer_level(line, false);
        assert_eq!(infer_level(&line.to_ascii_uppercase(), false), level);
        assert_eq!(infer_level(&line.to_ascii_lowercase(), false), level);
    }
}
