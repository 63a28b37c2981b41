//! Structured error model for a desktop event-visualization application.
//!
//! The library classifies failures by category and severity, preserves
//! contextual key/value metadata, redacts credential-like substrings before
//! display, offers recovery hints, and aggregates occurrence statistics.

pub mod data_source;
pub mod error;
pub mod logging;
pub mod metrics;
pub mod sanitize;
pub mod string_map;
pub mod text;
pub mod validate;

pub use error::AppError;
pub use error::ErrorCategory;
pub use error::ErrorSeverity;
pub use logging::LogLevel;
pub use logging::Logger;
pub use metrics::CategoryCounts;
pub use metrics::ErrorMetrics;
pub use metrics::ErrorStats;
pub use metrics::SeverityCounts;
pub use string_map::StringMap;
