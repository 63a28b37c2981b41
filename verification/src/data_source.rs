//! Descriptions of the data sources an event view can draw from.  These are
//! plain records; reading and validating the sources themselves belongs to
//! the host application.

use vstd::prelude::*;

use crate::string_map::StringMap;

verus! {

/// A configured data source.
#[derive(Debug, Clone)]
pub struct DataSource {
    pub id: String,
    pub name: String,
    pub description: Option<String>,
    pub source_type: DataSourceType,
    pub configuration: SourceConfiguration,
    pub status: DataSourceStatus,
    pub metadata: DataSourceMetadata,
}

/// The kind of file a data source reads.
#[derive(Debug, Clone, PartialEq, Eq)]
pub enum DataSourceType {
    Csv,
    Json,
}

/// The configuration matching the source's kind.
#[derive(Debug, Clone)]
pub enum SourceConfiguration {
    Csv(CsvConfig),
    Json(JsonConfig),
}

/// How to read a CSV file.
#[derive(Debug, Clone)]
pub struct CsvConfig {
    pub file_path: String,
    pub delimiter: String,
    pub has_headers: bool,
    pub encoding: String,
    pub column_mappings: StringMap,
}

/// How to read a JSON file.
#[derive(Debug, Clone)]
pub struct JsonConfig {
    pub file_path: String,
    pub root_path: Option<String>,
    pub mappings: StringMap,
}

/// Whether a source is in use, and the last failure seen on it.
#[derive(Debug, Clone)]
pub enum DataSourceStatus {
    Active,
    Inactive,
    Error(String),
}

/// Bookkeeping about a source's lifecycle and its file.
#[derive(Debug, Clone)]
pub struct DataSourceMetadata {
    pub created_at: String,
    pub updated_at: String,
    pub last_validated: Option<String>,
    pub row_count: Option<usize>,
    pub file_size: Option<u64>,
}

} // verus!
