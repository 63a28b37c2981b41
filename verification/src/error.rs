//! The structured error value: a message classified by category and
//! severity, with caller-attached context, a creation timestamp, recovery
//! hints, and a display-safe sanitized form.

use vstd::prelude::*;
use vstd::string::*;

use crate::logging::LogLevel;
use crate::logging::Logger;
use crate::sanitize::sanitize;
use crate::sanitize::sanitize_text;
use crate::string_map::StringMap;
use crate::text::contains_ci;
use crate::text::contains_ci_str;

verus! {

/// Coarse classification of an error's originating subsystem.
#[derive(Debug, Clone, PartialEq, Eq)]
pub enum ErrorCategory {
    Network,
    Validation,
    FileSystem,
    Database,
    System,
    Cache,
    Processing,
    Unknown,
}

/// Ordered urgency of an error, from least to most severe.
#[derive(Debug, Clone, PartialEq, Eq, PartialOrd, Ord)]
pub enum ErrorSeverity {
    Debug,
    Info,
    Warning,
    Error,
    Critical,
}

/// The category inferred from a message: the first keyword group that the
/// message contains, case-insensitively, wins.
pub open spec fn spec_categorize(s: Seq<char>) -> ErrorCategory {
    if contains_ci(s, "network"@) || contains_ci(s, "connection"@) || contains_ci(s, "timeout"@) {
        ErrorCategory::Network
    } else if contains_ci(s, "invalid"@) || contains_ci(s, "validation"@) || contains_ci(
        s,
        "required"@,
    ) {
        ErrorCategory::Validation
    } else if contains_ci(s, "file"@) || contains_ci(s, "not found"@) {
        ErrorCategory::FileSystem
    } else if contains_ci(s, "database"@) {
        ErrorCategory::Database
    } else {
        ErrorCategory::Unknown
    }
}

/// The severity inferred from a message: the first keyword group that the
/// message contains, case-insensitively, wins, and a message with no
/// severity keyword is an error, not informational.
pub open spec fn spec_assess(s: Seq<char>) -> ErrorSeverity {
    if contains_ci(s, "crash"@) || contains_ci(s, "critical"@) {
        ErrorSeverity::Critical
    } else if contains_ci(s, "deprecated"@) || contains_ci(s, "warning"@) {
        ErrorSeverity::Warning
    } else if contains_ci(s, "completed"@) || contains_ci(s, "minor"@) {
        ErrorSeverity::Info
    } else {
        ErrorSeverity::Error
    }
}

/// A message containing `network`, `connection`, or `timeout` in any case is
/// always classified as a network error.
pub proof fn lemma_network_keywords_categorize(s: Seq<char>)
    requires
        contains_ci(s, "network"@) || contains_ci(s, "connection"@) || contains_ci(s, "timeout"@),
    ensures
        spec_categorize(s) == ErrorCategory::Network,
{
}

/// A message containing `crash` or `critical` in any case is always
/// assessed as critical.
pub proof fn lemma_critical_keywords_assess(s: Seq<char>)
    requires
        contains_ci(s, "crash"@) || contains_ci(s, "critical"@),
    ensures
        spec_assess(s) == ErrorSeverity::Critical,
{
}

/// A message containing none of the severity keywords is assessed as an
/// error: never informational, never debug.
pub proof fn lemma_no_keyword_assess_error(s: Seq<char>)
    requires
        !contains_ci(s, "crash"@),
        !contains_ci(s, "critical"@),
        !contains_ci(s, "deprecated"@),
        !contains_ci(s, "warning"@),
        !contains_ci(s, "completed"@),
        !contains_ci(s, "minor"@),
    ensures
        spec_assess(s) == ErrorSeverity::Error,
        spec_assess(s) != ErrorSeverity::Info,
        spec_assess(s) != ErrorSeverity::Debug,
{
}

/// std::time::SystemTime, declared so the timestamp can be carried through;
/// the library never looks inside it.
#[verifier::external_type_specification]
#[verifier::external_body]
pub struct ExSystemTime(std::time::SystemTime);

/// std::io::Error, declared so a filesystem-layer failure can be taken as an
/// argument; the library never looks inside it.
#[verifier::external_type_specification]
#[verifier::external_body]
pub struct ExIoError(std::io::Error);

/// Relies on std::time::SystemTime being a plain copyable instant: its
/// Clone returns the same value.
pub assume_specification[ <std::time::SystemTime as Clone>::clone ](
    t: &std::time::SystemTime,
) -> (r: std::time::SystemTime)
    ensures
        r == *t,
;

/// Relies on std::time::SystemTime::now for the moment of construction;
/// nothing is assumed about the value it returns.
#[verifier::external_body]
fn system_time_now() -> std::time::SystemTime {
    std::time::SystemTime::now()
}

/// Relies on the std::io::Error Display implementation for the textual
/// description of a filesystem-layer failure; nothing is assumed about the
/// text it returns.
#[verifier::external_body]
fn io_error_message(err: &std::io::Error) -> String {
    err.to_string()
}

/// One failure occurrence.  Category and severity are fixed at
/// construction; only the context may grow afterwards.
#[derive(Debug, Clone)]
pub struct AppError {
    message: String,
    category: ErrorCategory,
    severity: ErrorSeverity,
    context: StringMap,
    timestamp: std::time::SystemTime,
}

impl AppError {
    /// The error's message.
    pub closed spec fn spec_message(&self) -> Seq<char> {
        self.message@
    }

    /// The error's category.
    pub closed spec fn spec_category(&self) -> ErrorCategory {
        self.category
    }

    /// The error's severity.
    pub closed spec fn spec_severity(&self) -> ErrorSeverity {
        self.severity
    }

    /// The error's context, as a map from keys to values.
    pub closed spec fn spec_context(&self) -> Map<Seq<char>, Seq<char>> {
        self.context@
    }

    /// The error's creation timestamp.
    pub closed spec fn spec_timestamp(&self) -> std::time::SystemTime {
        self.timestamp
    }

    /// The context's key list is in good shape.
    pub closed spec fn wf(&self) -> bool {
        self.context.wf()
    }

    /// Builds an error from an explicit message, category, and severity.
    /// The timestamp is the moment of construction; the context starts
    /// empty.
    pub fn new(message: String, category: ErrorCategory, severity: ErrorSeverity) -> (r: AppError)
        ensures
            r.wf(),
            r.spec_message() == message@,
            r.spec_category() == category,
            r.spec_severity() == severity,
            r.spec_context() == Map::<Seq<char>, Seq<char>>::empty(),
    {
        AppError {
            message,
            category,
            severity,
            context: StringMap::new(),
            timestamp: system_time_now(),
        }
    }

    /// Builds an error from a message alone, inferring category and
    /// severity from the message's keywords.
    pub fn from_message(message: &str) -> (r: AppError)
        ensures
            r.wf(),
            r.spec_message() == message@,
            r.spec_category() == spec_categorize(message@),
            r.spec_severity() == spec_assess(message@),
            r.spec_context() == Map::<Seq<char>, Seq<char>>::empty(),
    {
        let category = Self::categorize_message(message);
        let severity = Self::assess_severity(message);
        Self::new(String::from_str(message), category, severity)
    }

    /// Wraps a filesystem-layer failure: category `FileSystem`, severity
    /// `Error`, message taken from the underlying error's description.
    pub fn from_io_error(err: std::io::Error) -> (r: AppError)
        ensures
            r.wf(),
            r.spec_category() == ErrorCategory::FileSystem,
            r.spec_severity() == ErrorSeverity::Error,
            r.spec_context() == Map::<Seq<char>, Seq<char>>::empty(),
    {
        let message = io_error_message(&err);
        Self::new(message, ErrorCategory::FileSystem, ErrorSeverity::Error)
    }

    /// Binds `key` to `value` in the context, overwriting any earlier value
    /// for `key`.  Nothing else about the error changes.
    pub fn with_context(&mut self, key: &str, value: &str)
        requires
            old(self).wf(),
        ensures
            final(self).wf(),
            final(self).spec_context() == old(self).spec_context().insert(key@, value@),
            final(self).spec_message() == old(self).spec_message(),
            final(self).spec_category() == old(self).spec_category(),
            final(self).spec_severity() == old(self).spec_severity(),
            final(self).spec_timestamp() == old(self).spec_timestamp(),
    {
        self.context.insert(key, value);
    }

    /// The error's message.
    pub fn message(&self) -> (r: &str)
        ensures
            r@ == self.spec_message(),
    {
        self.message.as_str()
    }

    /// The error's category.
    pub fn category(&self) -> (r: &ErrorCategory)
        ensures
            *r == self.spec_category(),
    {
        &self.category
    }

    /// The error's severity.
    pub fn severity(&self) -> (r: &ErrorSeverity)
        ensures
            *r == self.spec_severity(),
    {
        &self.severity
    }

    /// The error's context.
    pub fn context(&self) -> (r: &StringMap)
        ensures
            r@ == self.spec_context(),
            self.wf() ==> r.wf(),
    {
        &self.context
    }

    /// The error's creation timestamp.
    pub fn timestamp(&self) -> (r: std::time::SystemTime)
        ensures
            r == self.spec_timestamp(),
    {
        self.timestamp
    }

    /// Fixed recovery hints for the error's category: retry advice for
    /// network errors, input advice for validation errors, nothing for the
    /// rest.
    pub fn recovery_suggestions(&self) -> (r: Vec<String>)
        ensures
            self.spec_category() == ErrorCategory::Network ==> r@.len() == 2 && r@[0]@
                == "Retry the operation"@ && r@[1]@ == "Check network connectivity"@,
            self.spec_category() == ErrorCategory::Validation ==> r@.len() == 2 && r@[0]@
                == "Validate input format"@ && r@[1]@ == "Check field requirements"@,
            self.spec_category() != ErrorCategory::Network && self.spec_category()
                != ErrorCategory::Validation ==> r@.len() == 0,
    {
        let mut r: Vec<String> = Vec::new();
        match &self.category {
            ErrorCategory::Network => {
                r.push(String::from_str("Retry the operation"));
                r.push(String::from_str("Check network connectivity"));
            },
            ErrorCategory::Validation => {
                r.push(String::from_str("Validate input format"));
                r.push(String::from_str("Check field requirements"));
            },
            _ => {},
        }
        r
    }

    /// The causal chain: today a single link, this error's own message.
    pub fn error_chain(&self) -> (r: Vec<String>)
        ensures
            r@.len() == 1,
            r@[0]@ == self.spec_message(),
    {
        let mut r: Vec<String> = Vec::new();
        r.push(self.message.clone());
        r
    }

    /// The message with the value after each credential marker replaced by
    /// `***`: the form that is safe to display.
    pub fn sanitized_message(&self) -> (r: String)
        ensures
            r@ == sanitize(self.spec_message()),
    {
        sanitize_text(self.message.as_str())
    }

    /// Forwards the error's severity and message to a logging sink.
    pub fn log_with_logger<L: Logger>(&self, logger: &L) {
        logger.log(level_for(&self.severity), self.message.as_str())
    }

    /// The category inferred from a message's keywords.
    pub fn categorize_message(message: &str) -> (r: ErrorCategory)
        ensures
            r == spec_categorize(message@),
    {
        if contains_ci_str(message, "network") || contains_ci_str(message, "connection")
            || contains_ci_str(message, "timeout") {
            ErrorCategory::Network
        } else if contains_ci_str(message, "invalid") || contains_ci_str(message, "validation")
            || contains_ci_str(message, "required") {
            ErrorCategory::Validation
        } else if contains_ci_str(message, "file") || contains_ci_str(message, "not found") {
            ErrorCategory::FileSystem
        } else if contains_ci_str(message, "database") {
            ErrorCategory::Database
        } else {
            ErrorCategory::Unknown
        }
    }

    /// The severity inferred from a message's keywords.
    pub fn assess_severity(message: &str) -> (r: ErrorSeverity)
        ensures
            r == spec_assess(message@),
    {
        if contains_ci_str(message, "crash") || contains_ci_str(message, "critical") {
            ErrorSeverity::Critical
        } else if contains_ci_str(message, "deprecated") || contains_ci_str(message, "warning") {
            ErrorSeverity::Warning
        } else if contains_ci_str(message, "completed") || contains_ci_str(message, "minor") {
            ErrorSeverity::Info
        } else {
            ErrorSeverity::Error
        }
    }
}

/// The log level that announces a given severity.
pub open spec fn spec_level_for(s: ErrorSeverity) -> LogLevel {
    match s {
        ErrorSeverity::Debug => LogLevel::Debug,
        ErrorSeverity::Info => LogLevel::Info,
        ErrorSeverity::Warning => LogLevel::Warn,
        ErrorSeverity::Error => LogLevel::Error,
        ErrorSeverity::Critical => LogLevel::Critical,
    }
}

/// Maps a severity to the log level that announces it.
pub fn level_for(severity: &ErrorSeverity) -> (r: LogLevel)
    ensures
        r == spec_level_for(*severity),
{
    match severity {
        ErrorSeverity::Debug => LogLevel::Debug,
        ErrorSeverity::Info => LogLevel::Info,
        ErrorSeverity::Warning => LogLevel::Warn,
        ErrorSeverity::Error => LogLevel::Error,
        ErrorSeverity::Critical => LogLevel::Critical,
    }
}

} // verus!
