//! A dialect-aware SQL gateway: identifier safety, statement construction for
//! three relational engines, catalog normalization, result-cell coercion and a
//! token-keyed session registry.

pub mod catalog;
pub mod data;
pub mod dialect;
pub mod error;
pub mod ident;
pub mod normalize;
pub mod query;
pub mod schema;
pub mod session;
pub mod text;

pub use catalog::{
    column_probe_sql, foreign_keys_sql, index_columns_sql, indexes_sql, list_tables_sql,
    primary_key_from_lookup, primary_key_from_table_info, primary_key_sql, probed_column_names,
    table_columns_sql, table_count_sql, version_sql, CatalogQuery, ColumnInfo, ForeignKeyInfo,
    IndexInfo, TableInfo,
};
pub use data::{
    check_body, delete_row_sql, insert_row_sql, select_page, update_row_sql, FieldValue, Page,
    PaginationParams, RowBody,
};
pub use dialect::DbType;
pub use error::RequestError;
pub use ident::{escape_string_literal, is_valid_identifier, quote_identifier};
pub use normalize::{normalize_cell, normalize_row, CellProbe, Scalar};
pub use query::{
    cast_query_sql, classify_query, nested_body, scratch_columns_sql, scratch_create_sql,
    scratch_drop_sql, scratch_table_name, RawQuery,
};
pub use schema::{
    alter_table_sql, column_definition_sql, create_table_sql, default_on_delete, drop_table_sql,
    AlterTableRequest, AlterType, ColumnDefinition, CreateTableRequest, ForeignKeyDefinition,
};
pub use session::{
    parse_bearer, AuthError, ConnectRequest, ConnectResponse, ConnectionInfo, Session,
    SessionRegistry, StatusResponse,
};
