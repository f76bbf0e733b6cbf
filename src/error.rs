use vstd::prelude::*;

verus! {

/// Why a request was refused before any SQL reached the engine.
#[derive(Debug, Clone, PartialEq, Eq)]
pub enum RequestError {
    InvalidTableName,
    InvalidNewTableName,
    InvalidColumnName(String),
    InvalidReferencedTable(String),
    NotAnObject,
    NoData,
    MissingNewName,
    MissingColumnDefinition,
    MissingColumnName,
    UnsupportedAlteration,
    InvalidOnDelete(String),
    EmptyQuery,
}

/// The text reported to the caller for each refusal.
pub open spec fn request_error_message(e: RequestError) -> Seq<char> {
    match e {
        RequestError::InvalidTableName => "Invalid table name"@,
        RequestError::InvalidNewTableName => "Invalid new table name"@,
        RequestError::InvalidColumnName(c) => "Invalid column name: "@ + c@,
        RequestError::InvalidReferencedTable(t) => "Invalid referenced table: "@ + t@,
        RequestError::NotAnObject => "Request body must be a JSON object"@,
        RequestError::NoData => "No data provided"@,
        RequestError::MissingNewName => "New name required for Rename Table"@,
        RequestError::MissingColumnDefinition => "Column definition required for Add Column"@,
        RequestError::MissingColumnName => "Column name required for Drop Column"@,
        RequestError::UnsupportedAlteration => "Unsupported alteration"@,
        RequestError::InvalidOnDelete(a) => "Invalid ON DELETE action: "@ + a@,
        RequestError::EmptyQuery => "SQL query cannot be empty"@,
    }
}

impl RequestError {
    /// The text reported to the caller.
    pub fn message(&self) -> (r: String)
        ensures
            r@ == request_error_message(*self),
    {
        match self {
            RequestError::InvalidTableName => String::from_str("Invalid table name"),
            RequestError::InvalidNewTableName => String::from_str("Invalid new table name"),
            RequestError::InvalidColumnName(c) => {
                String::from_str("Invalid column name: ").concat(c.as_str())
            },
            RequestError::InvalidReferencedTable(t) => {
                String::from_str("Invalid referenced table: ").concat(t.as_str())
            },
            RequestError::NotAnObject => String::from_str("Request body must be a JSON object"),
            RequestError::NoData => String::from_str("No data provided"),
            RequestError::MissingNewName => String::from_str("New name required for Rename Table"),
            RequestError::MissingColumnDefinition => {
                String::from_str("Column definition required for Add Column")
            },
            RequestError::MissingColumnName => {
                String::from_str("Column name required for Drop Column")
            },
            RequestError::UnsupportedAlteration => String::from_str("Unsupported alteration"),
            RequestError::InvalidOnDelete(a) => {
                String::from_str("Invalid ON DELETE action: ").concat(a.as_str())
            },
            RequestError::EmptyQuery => String::from_str("SQL query cannot be empty"),
        }
    }
}

} // verus!
