use std::sync::Mutex;

use event_viz::AppError;
use event_viz::ErrorCategory;
use event_viz::ErrorMetrics;
use event_viz::ErrorSeverity;
use event_viz::LogLevel;
use event_viz::Logger;
use event_viz::StringMap;
use event_viz::validate::validate_input;

struct RecordingLogger {
    lines: Mutex<Vec<(LogLevel, String)>>,
}

impl Logger for RecordingLogger {
    fn log(&self, level: LogLevel, message: &str) {
        self.lines.lock().unwrap().push((level, message.to_string()));
    }
}

#[test]
fn category_priority_network_beats_database() {
    // "connection" is checked before "database", so the network group wins.
    let error = AppError::from_message("Database connection failed: password=secret123");
    assert_eq!(error.category(), &ErrorCategory::Network);
    assert_eq!(error.sanitized_message(), "Database connection failed: password=***");
}

#[test]
fn category_keywords_are_case_insensitive() {
    assert_eq!(AppError::from_message("NETWORK FAILURE").category(), &ErrorCategory::Network);
    assert_eq!(AppError::from_message("TIMEOUT reached").category(), &ErrorCategory::Network);
    assert_eq!(AppError::from_message("VALIDATION failed").category(), &ErrorCategory::Validation);
    assert_eq!(AppError::from_message("DATABASE busy").category(), &ErrorCategory::Database);
}

#[test]
fn unmatched_message_is_unknown_error() {
    let error = AppError::from_message("Something odd happened");
    assert_eq!(error.category(), &ErrorCategory::Unknown);
    assert_eq!(error.severity(), &ErrorSeverity::Error);
}

#[test]
fn empty_message_is_unknown_error() {
    let error = AppError::from_message("");
    assert_eq!(error.category(), &ErrorCategory::Unknown);
    assert_eq!(error.severity(), &ErrorSeverity::Error);
    assert_eq!(error.sanitized_message(), "");
}

#[test]
fn severity_priority_critical_beats_warning() {
    let error = AppError::from_message("critical warning");
    assert_eq!(error.severity(), &ErrorSeverity::Critical);
}

#[test]
fn validation_recovery_suggestions_exact() {
    let error = AppError::new(
        "Invalid input".to_string(),
        ErrorCategory::Validation,
        ErrorSeverity::Error,
    );
    let suggestions = error.recovery_suggestions();
    assert_eq!(suggestions, vec!["Validate input format".to_string(), "Check field requirements".to_string()]);
}

#[test]
fn other_categories_have_no_suggestions() {
    for category in [
        ErrorCategory::FileSystem,
        ErrorCategory::Database,
        ErrorCategory::System,
        ErrorCategory::Cache,
        ErrorCategory::Processing,
        ErrorCategory::Unknown,
    ] {
        let error = AppError::new("x".to_string(), category, ErrorSeverity::Error);
        assert!(error.recovery_suggestions().is_empty());
    }
}

#[test]
fn error_chain_single_link() {
    let error = AppError::from_message("Connection timeout");
    assert_eq!(error.error_chain(), vec!["Connection timeout".to_string()]);
}

#[test]
fn sanitize_value_at_end_of_message() {
    let error = AppError::from_message("token=abc");
    assert_eq!(error.sanitized_message(), "token=***");
}

#[test]
fn sanitize_value_ends_at_delimiters() {
    let error = AppError::from_message("secret=hunter2, more");
    assert_eq!(error.sanitized_message(), "secret=***, more");
    let error = AppError::from_message("secret=hunter2;next");
    assert_eq!(error.sanitized_message(), "secret=***;next");
}

#[test]
fn sanitize_empty_value_still_marked() {
    let error = AppError::from_message("password= next");
    assert_eq!(error.sanitized_message(), "password=*** next");
}

#[test]
fn sanitize_redacts_each_marker_kind_once() {
    let error = AppError::from_message("password=a secret=b api_key=c token=d");
    assert_eq!(error.sanitized_message(), "password=*** secret=*** api_key=*** token=***");
}

#[test]
fn sanitize_only_first_occurrence_of_a_marker() {
    // A repeated marker of the same kind is redacted only at its first
    // occurrence; this pins the single-occurrence behavior.
    let error = AppError::from_message("password=a password=b");
    assert_eq!(error.sanitized_message(), "password=*** password=b");
}

#[test]
fn sanitize_leaves_plain_message_alone() {
    let error = AppError::from_message("Nothing sensitive here");
    assert_eq!(error.sanitized_message(), "Nothing sensitive here");
}

#[test]
fn context_overwrites_on_repeated_key() {
    let mut error = AppError::from_message("Connection timeout");
    error.with_context("attempt", "1");
    error.with_context("attempt", "2");
    assert_eq!(error.context().get("attempt"), Some(&"2".to_string()));
}

#[test]
fn string_map_insert_get_overwrite() {
    let mut map = StringMap::new();
    assert_eq!(map.get("k"), None);
    map.insert("k", "v1");
    assert_eq!(map.get("k"), Some(&"v1".to_string()));
    map.insert("k", "v2");
    map.insert("other", "w");
    assert_eq!(map.get("k"), Some(&"v2".to_string()));
    assert_eq!(map.get("other"), Some(&"w".to_string()));
    assert_eq!(map.get("missing"), None);
}

#[test]
fn three_records_counted_by_category_and_severity() {
    let mut metrics = ErrorMetrics::new();
    metrics.record_error(&AppError::new(
        "a".to_string(),
        ErrorCategory::Network,
        ErrorSeverity::Error,
    ));
    metrics.record_error(&AppError::new(
        "b".to_string(),
        ErrorCategory::Network,
        ErrorSeverity::Warning,
    ));
    metrics.record_error(&AppError::new(
        "c".to_string(),
        ErrorCategory::Validation,
        ErrorSeverity::Error,
    ));
    let stats = metrics.get_stats();
    assert_eq!(stats.total_errors, 3);
    assert_eq!(stats.errors_by_category.count(&ErrorCategory::Network), 2);
    assert_eq!(stats.errors_by_category.count(&ErrorCategory::Validation), 1);
    assert_eq!(stats.errors_by_category.count(&ErrorCategory::Database), 0);
    assert_eq!(stats.errors_by_severity.count(&ErrorSeverity::Error), 2);
    assert_eq!(stats.errors_by_severity.count(&ErrorSeverity::Warning), 1);
    assert_eq!(stats.errors_by_severity.count(&ErrorSeverity::Critical), 0);
}

#[test]
fn snapshot_is_a_value_not_a_live_view() {
    let mut metrics = ErrorMetrics::new();
    metrics.record_error(&AppError::new(
        "a".to_string(),
        ErrorCategory::Network,
        ErrorSeverity::Error,
    ));
    let before = metrics.get_stats();
    metrics.record_error(&AppError::new(
        "b".to_string(),
        ErrorCategory::Network,
        ErrorSeverity::Error,
    ));
    assert_eq!(before.total_errors, 1);
    assert_eq!(before.errors_by_category.count(&ErrorCategory::Network), 1);
    let after = metrics.get_stats();
    assert_eq!(after.total_errors, 2);
}

#[test]
fn log_level_labels() {
    assert_eq!(LogLevel::Debug.label(), "DEBUG");
    assert_eq!(LogLevel::Info.label(), "INFO");
    assert_eq!(LogLevel::Warn.label(), "WARN");
    assert_eq!(LogLevel::Error.label(), "ERROR");
    assert_eq!(LogLevel::Critical.label(), "CRITICAL");
}

#[test]
fn validate_input_accepts_and_echoes() {
    assert_eq!(validate_input("hello").unwrap(), "Valid input: hello");
}

#[test]
fn validate_input_rejects_empty() {
    let error = validate_input("").unwrap_err();
    assert_eq!(error.message(), "Input cannot be empty");
    assert_eq!(error.category(), &ErrorCategory::Validation);
    assert_eq!(error.severity(), &ErrorSeverity::Warning);
}

#[test]
fn validate_input_rejects_over_100_bytes() {
    let long = "x".repeat(101);
    let error = validate_input(&long).unwrap_err();
    assert_eq!(error.message(), "Input too long");
    let edge = "x".repeat(100);
    assert_eq!(validate_input(&edge).unwrap(), format!("Valid input: {}", edge));
}

#[test]
fn log_with_logger_forwards_severity_and_message() {
    let logger = RecordingLogger { lines: Mutex::new(Vec::new()) };
    let error = AppError::new(
        "Disk full".to_string(),
        ErrorCategory::FileSystem,
        ErrorSeverity::Critical,
    );
    error.log_with_logger(&logger);
    let lines = logger.lines.lock().unwrap();
    assert_eq!(lines.len(), 1);
    assert_eq!(lines[0], (LogLevel::Critical, "Disk full".to_string()));
}

#[test]
fn string_map_pairs_lists_every_binding() {
    let mut map = StringMap::new();
    map.insert("a", "1");
    map.insert("b", "2");
    let pairs = map.pairs();
    assert_eq!(pairs.len(), 2);
    assert!(pairs.contains(&("a".to_string(), "1".to_string())));
    assert!(pairs.contains(&("b".to_string(), "2".to_string())));
}

#[test]
fn timestamp_is_fixed_at_construction() {
    let error = AppError::from_message("Connection timeout");
    assert_eq!(error.timestamp(), error.timestamp());
}

#[test]
fn from_io_error_is_filesystem_error() {
    let io_error = std::io::Error::new(std::io::ErrorKind::PermissionDenied, "denied");
    let error = AppError::from_io_error(io_error);
    assert_eq!(error.category(), &ErrorCategory::FileSystem);
    assert_eq!(error.severity(), &ErrorSeverity::Error);
}
