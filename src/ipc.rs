//! Request and response shapes of every operation, and the result
//! envelope they travel in.

use std::collections::HashMap;

use vstd::prelude::*;
use vstd::string::*;

use serde_json::Value;

use crate::domain::BackendKind;

verus! {

/// The version of the request/response contract.
#[derive(Debug, Clone, Copy, PartialEq, Eq, Structural)]
pub enum ApiVersion {
    V1,
}

/// The closed set of error codes an envelope can carry.
#[derive(Debug, Clone, Copy, PartialEq, Eq, Structural)]
pub enum ErrorCode {
    InvalidArgument,
    NotFound,
    Internal,
    NotImplemented,
}

/// What went wrong: a code, a message, and optional structured details.
#[derive(Debug, Clone)]
pub struct ErrorEnvelope {
    pub code: ErrorCode,
    pub message: String,
    pub details: Option<serde_json::Value>,
}

/// The uniform wrapper every operation returns: data on success, an error otherwise.
#[derive(Debug, Clone)]
pub struct ResultEnvelope<T> {
    pub api_version: ApiVersion,
    pub ok: bool,
    pub data: Option<T>,
    pub error: Option<ErrorEnvelope>,
}

/// The encoding of scan results: row-oriented JSON or a columnar IPC stream.
#[derive(Debug, Clone, Copy, PartialEq, Eq, Structural)]
pub enum DataFormat {
    Json,
    Arrow,
}

/// File formats for import and export.
#[derive(Debug, Clone, Copy, PartialEq, Eq, Structural)]
pub enum DataFileFormatV1 {
    Csv,
    Parquet,
    Jsonl,
}

/// Whether written rows are appended or replace the table contents.
#[derive(Debug, Clone, Copy, PartialEq, Eq, Structural)]
pub enum WriteDataMode {
    Append,
    Overwrite,
}

/// Index kinds the engine can build.
#[derive(Debug, Clone, Copy, PartialEq, Eq, Structural)]
pub enum IndexTypeV1 {
    Auto,
    BTree,
    Bitmap,
    LabelList,
    Fts,
    IvfFlat,
    IvfSq,
    IvfPq,
    IvfRq,
    IvfHnswPq,
    IvfHnswSq,
}

/// Credentials for a connection: none, inline parameters, or a reference to a secret.
#[derive(Debug, Clone)]
pub enum AuthDescriptor {
    /// No credentials beyond the storage options.
    NoCredentials,
    Inline {
        provider: String,
        params: HashMap<String, String>,
    },
    SecretRef {
        provider: String,
        reference: String,
    },
}

#[derive(Debug, Clone)]
pub struct ConnectOptions {
    pub read_consistency_interval_seconds: Option<u64>,
}

#[derive(Debug, Clone)]
pub struct ConnectProfile {
    pub name: String,
    pub uri: String,
    pub storage_options: HashMap<String, String>,
    pub options: ConnectOptions,
    pub auth: AuthDescriptor,
}

#[derive(Debug, Clone)]
pub struct ConnectRequestV1 {
    pub profile: ConnectProfile,
}

#[derive(Debug, Clone)]
pub struct ConnectResponseV1 {
    pub connection_id: String,
    pub backend_kind: BackendKind,
    pub name: String,
    pub uri: String,
}

#[derive(Debug, Clone)]
pub struct DisconnectRequestV1 {
    pub connection_id: String,
}

#[derive(Debug, Clone)]
pub struct DisconnectResponseV1 {
    pub connection_id: String,
    pub released_tables: usize,
}

#[derive(Debug, Clone)]
pub struct ListTablesRequestV1 {
    pub connection_id: String,
}

#[derive(Debug, Clone)]
pub struct TableInfo {
    pub name: String,
}

#[derive(Debug, Clone)]
pub struct ListTablesResponseV1 {
    pub tables: Vec<TableInfo>,
}

#[derive(Debug, Clone)]
pub struct DropTableRequestV1 {
    pub connection_id: String,
    pub table_name: String,
    pub namespace: Option<Vec<String>>,
}

#[derive(Debug, Clone)]
pub struct DropTableResponseV1 {
    pub table_name: String,
}

#[derive(Debug, Clone)]
pub struct RenameTableRequestV1 {
    pub connection_id: String,
    pub table_name: String,
    pub new_table_name: String,
    pub namespace: Option<Vec<String>>,
    pub new_namespace: Option<Vec<String>>,
}

#[derive(Debug, Clone)]
pub struct RenameTableResponseV1 {
    pub table_name: String,
    pub new_table_name: String,
}

#[derive(Debug, Clone)]
pub struct ListIndexesRequestV1 {
    pub table_id: String,
}

#[derive(Debug, Clone)]
pub struct IndexDefinitionV1 {
    pub name: String,
    pub index_type: IndexTypeV1,
    pub columns: Vec<String>,
}

#[derive(Debug, Clone)]
pub struct ListIndexesResponseV1 {
    pub indexes: Vec<IndexDefinitionV1>,
}

#[derive(Debug, Clone)]
pub struct CreateIndexRequestV1 {
    pub table_id: String,
    pub columns: Vec<String>,
    pub index_type: IndexTypeV1,
    pub name: Option<String>,
    pub replace: bool,
}

#[derive(Debug, Clone)]
pub struct CreateIndexResponseV1 {
    pub table_id: String,
    pub index_type: IndexTypeV1,
    pub columns: Vec<String>,
    pub name: Option<String>,
}

#[derive(Debug, Clone)]
pub struct DropIndexRequestV1 {
    pub table_id: String,
    pub index_name: String,
}

#[derive(Debug, Clone)]
pub struct DropIndexResponseV1 {
    pub table_id: String,
    pub index_name: String,
}

#[derive(Debug, Clone)]
pub struct OpenTableRequestV1 {
    pub connection_id: String,
    pub table_name: String,
}

#[derive(Debug, Clone)]
pub struct TableHandle {
    pub table_id: String,
    pub name: String,
}

#[derive(Debug, Clone)]
pub struct GetSchemaRequestV1 {
    pub table_id: String,
}

/// Column types a caller can ask for when defining a schema.
#[derive(Debug, Clone, Copy, PartialEq, Eq, Structural)]
pub enum FieldDataType {
    Int8,
    Int16,
    Int32,
    Int64,
    UInt8,
    UInt16,
    UInt32,
    UInt64,
    Float32,
    Float64,
    Boolean,
    Utf8,
    LargeUtf8,
    Binary,
    LargeBinary,
    FixedSizeListFloat32,
}

#[derive(Debug, Clone)]
pub struct SchemaFieldInput {
    pub name: String,
    pub data_type: FieldDataType,
    pub nullable: bool,
    pub metadata: Option<HashMap<String, String>>,
    pub vector_length: Option<i32>,
}

/// A table schema as a caller defines it.
#[derive(Debug, Clone)]
pub struct SchemaDefinitionInput {
    pub fields: Vec<SchemaFieldInput>,
}

#[derive(Debug, Clone)]
pub struct SchemaField {
    pub name: String,
    pub data_type: String,
    pub nullable: bool,
    pub metadata: Option<HashMap<String, String>>,
}

/// A table schema as reported to callers.
#[derive(Debug, Clone)]
pub struct SchemaDefinition {
    pub fields: Vec<SchemaField>,
}

#[derive(Debug, Clone)]
pub struct ScanRequestV1 {
    pub table_id: String,
    pub format: DataFormat,
    pub projection: Option<Vec<String>>,
    pub filter: Option<String>,
    pub limit: Option<usize>,
    pub offset: Option<usize>,
}

#[derive(Debug, Clone)]
pub struct WriteRowsRequestV1 {
    pub table_id: String,
    pub rows: Vec<serde_json::Value>,
    pub mode: WriteDataMode,
}

#[derive(Debug, Clone)]
pub struct WriteRowsResponseV1 {
    pub table_id: String,
    pub rows: usize,
    pub version: u64,
}

#[derive(Debug, Clone)]
pub struct UpdateColumnInputV1 {
    pub column: String,
    pub expr: String,
}

#[derive(Debug, Clone)]
pub struct UpdateRowsRequestV1 {
    pub table_id: String,
    pub filter: Option<String>,
    pub updates: Vec<UpdateColumnInputV1>,
}

#[derive(Debug, Clone)]
pub struct UpdateRowsResponseV1 {
    pub table_id: String,
    pub rows_updated: u64,
    pub version: u64,
}

#[derive(Debug, Clone)]
pub struct DeleteRowsRequestV1 {
    pub table_id: String,
    pub filter: String,
}

#[derive(Debug, Clone)]
pub struct DeleteRowsResponseV1 {
    pub table_id: String,
    pub version: u64,
}

#[derive(Debug, Clone)]
pub struct ImportDataRequestV1 {
    pub table_id: String,
    pub path: String,
    pub format: DataFileFormatV1,
    pub mode: WriteDataMode,
    pub has_header: Option<bool>,
    pub delimiter: Option<String>,
}

#[derive(Debug, Clone)]
pub struct ImportDataResponseV1 {
    pub table_id: String,
    pub rows: usize,
}

#[derive(Debug, Clone)]
pub struct ExportDataRequestV1 {
    pub table_id: String,
    pub path: String,
    pub format: DataFileFormatV1,
    pub projection: Option<Vec<String>>,
    pub filter: Option<String>,
    pub limit: Option<usize>,
    pub offset: Option<usize>,
    pub delimiter: Option<String>,
    pub with_header: Option<bool>,
}

#[derive(Debug, Clone)]
pub struct ExportDataResponseV1 {
    pub path: String,
    pub rows: usize,
}

/// Table maintenance actions.
#[derive(Debug, Clone, Copy, PartialEq, Eq, Structural)]
pub enum OptimizeActionV1 {
    Compact,
    Vacuum,
}

#[derive(Debug, Clone)]
pub struct OptimizeTableRequestV1 {
    pub table_id: String,
    pub action: OptimizeActionV1,
    pub target_rows_per_fragment: Option<u64>,
    pub older_than_days: Option<u64>,
    pub delete_unverified: Option<bool>,
    pub error_if_tagged_old_versions: Option<bool>,
}

#[derive(Debug, Clone)]
pub struct OptimizeTableResponseV1 {
    pub table_id: String,
    pub action: OptimizeActionV1,
    pub summary: String,
}

#[derive(Debug, Clone)]
pub struct CreateTableRequestV1 {
    pub connection_id: String,
    pub table_name: String,
    pub schema: SchemaDefinitionInput,
}

#[derive(Debug, Clone)]
pub struct CreateTableResponseV1 {
    pub table_id: String,
    pub name: String,
}

#[derive(Debug, Clone)]
pub struct AddColumnsRequestV1 {
    pub table_id: String,
    pub columns: SchemaDefinitionInput,
}

#[derive(Debug, Clone)]
pub struct AddColumnsResponseV1 {
    pub table_id: String,
    pub added: Vec<String>,
    pub schema: SchemaDefinition,
}

#[derive(Debug, Clone)]
pub struct ColumnAlterationInput {
    pub path: String,
    pub rename: Option<String>,
    pub nullable: Option<bool>,
    pub data_type: Option<FieldDataType>,
    pub vector_length: Option<i32>,
}

#[derive(Debug, Clone)]
pub struct AlterColumnsRequestV1 {
    pub table_id: String,
    pub columns: Vec<ColumnAlterationInput>,
}

#[derive(Debug, Clone)]
pub struct AlterColumnsResponseV1 {
    pub table_id: String,
    pub updated: Vec<String>,
    pub schema: SchemaDefinition,
}

#[derive(Debug, Clone)]
pub struct DropColumnsRequestV1 {
    pub table_id: String,
    pub columns: Vec<String>,
}

#[derive(Debug, Clone)]
pub struct DropColumnsResponseV1 {
    pub table_id: String,
    pub dropped: Vec<String>,
    pub schema: SchemaDefinition,
}

/// A page of rows as JSON objects, with the schema and the window it covers.
#[derive(Debug, Clone)]
pub struct JsonChunk {
    pub rows: Vec<serde_json::Value>,
    pub schema: SchemaDefinition,
    pub offset: usize,
    pub limit: usize,
}

/// A page of rows as a base64 text of a columnar IPC stream.
#[derive(Debug, Clone)]
pub struct ArrowChunk {
    pub ipc_base64: String,
    pub compression: Option<String>,
}

/// A page of rows in one of the two result formats.
#[derive(Debug, Clone)]
pub enum DataChunk {
    Json(JsonChunk),
    Arrow(ArrowChunk),
}

/// A scan page and, where more rows remain, the offset of the next page.
#[derive(Debug, Clone)]
pub struct ScanResponseV1 {
    pub chunk: DataChunk,
    pub next_offset: Option<usize>,
}

#[derive(Debug, Clone)]
pub struct VersionInfoV1 {
    pub version: u64,
    pub timestamp: String,
    pub metadata: HashMap<String, String>,
}

#[derive(Debug, Clone)]
pub struct ListVersionsRequestV1 {
    pub table_id: String,
}

#[derive(Debug, Clone)]
pub struct ListVersionsResponseV1 {
    pub versions: Vec<VersionInfoV1>,
}

#[derive(Debug, Clone)]
pub struct GetTableVersionRequestV1 {
    pub table_id: String,
}

#[derive(Debug, Clone)]
pub struct GetTableVersionResponseV1 {
    pub table_id: String,
    pub version: u64,
}

#[derive(Debug, Clone)]
pub struct CheckoutTableVersionRequestV1 {
    pub table_id: String,
    pub version: u64,
}

#[derive(Debug, Clone)]
pub struct CheckoutTableVersionResponseV1 {
    pub table_id: String,
    pub version: u64,
}

#[derive(Debug, Clone)]
pub struct CheckoutTableLatestRequestV1 {
    pub table_id: String,
}

#[derive(Debug, Clone)]
pub struct CheckoutTableLatestResponseV1 {
    pub table_id: String,
    pub version: u64,
}

#[derive(Debug, Clone)]
pub struct CloneTableRequestV1 {
    pub connection_id: String,
    pub table_id: String,
    pub target_table_name: String,
    pub source_version: Option<u64>,
    pub source_tag: Option<String>,
    pub is_shallow: Option<bool>,
}

#[derive(Debug, Clone)]
pub struct CloneTableResponseV1 {
    pub table_id: String,
    pub name: String,
}

#[derive(Debug, Clone)]
pub struct FtsSearchRequestV1 {
    pub table_id: String,
    pub query: String,
    pub columns: Option<Vec<String>>,
    pub limit: Option<usize>,
    pub offset: Option<usize>,
    pub projection: Option<Vec<String>>,
    pub filter: Option<String>,
}

#[derive(Debug, Clone)]
pub struct QueryFilterRequestV1 {
    pub table_id: String,
    pub filter: String,
    pub projection: Option<Vec<String>>,
    pub limit: Option<usize>,
    pub offset: Option<usize>,
}

/// A query page and, where more rows remain, the offset of the next page.
#[derive(Debug, Clone)]
pub struct QueryResponseV1 {
    pub chunk: DataChunk,
    pub next_offset: Option<usize>,
}

impl Default for ApiVersion {
    fn default() -> (r: Self)
        ensures
            r == ApiVersion::V1,
    {
        ApiVersion::V1
    }
}

impl Default for DataFormat {
    fn default() -> (r: Self)
        ensures
            r == DataFormat::Json,
    {
        DataFormat::Json
    }
}

impl Default for WriteDataMode {
    fn default() -> (r: Self)
        ensures
            r == WriteDataMode::Append,
    {
        WriteDataMode::Append
    }
}

impl Default for AuthDescriptor {
    fn default() -> (r: Self)
        ensures
            r is NoCredentials,
    {
        AuthDescriptor::NoCredentials
    }
}

impl<T> ResultEnvelope<T> {
    /// A successful envelope carrying `data`.
    pub fn ok(data: T) -> (r: Self)
        ensures
            r.api_version == ApiVersion::V1,
            r.ok,
            r.data == Some(data),
            r.error is None,
    {
        ResultEnvelope { api_version: ApiVersion::V1, ok: true, data: Some(data), error: None }
    }

    /// A failed envelope with the given code and message, and no details.
    pub fn err(code: ErrorCode, message: &str) -> (r: Self)
        ensures
            r.api_version == ApiVersion::V1,
            !r.ok,
            r.data is None,
            r.error matches Some(e) && e.code == code && e.message@ == message@ && e.details is None,
    {
        ResultEnvelope {
            api_version: ApiVersion::V1,
            ok: false,
            data: None,
            error: Some(ErrorEnvelope { code, message: String::from_str(message), details: None }),
        }
    }

    /// The error code of a failed envelope.
    pub open spec fn error_code(&self) -> Option<ErrorCode> {
        match self.error {
            Some(e) => Some(e.code),
            None => None,
        }
    }
}

} // verus!
