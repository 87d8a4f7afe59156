use vstd::prelude::*;
use vstd::string::StringExecFns;

verus! {

/// The fatal error conditions of an analysis or generation run. Each
/// carries the offending path, table name or underlying message.
#[derive(Debug)]
pub enum SchemaError {
    DirectoryReadError(String),
    FileReadError(String),
    ParseError(String),
    UnknownTableReference(String),
    RenderError(String),
    WriteError(String),
    NoInputFilesFound(String),
}

impl SchemaError {
    /// A human-readable message naming the error and what it concerns.
    pub fn message(&self) -> (r: String)
        ensures
            r@ == match *self {
                SchemaError::DirectoryReadError(p) => "Error reading directory: "@ + p@,
                SchemaError::FileReadError(p) => "Error reading file: "@ + p@,
                SchemaError::ParseError(m) => "Failed to parse SQL with error: "@ + m@,
                SchemaError::UnknownTableReference(t) => "Alter table references unknown table: "@
                    + t@,
                SchemaError::RenderError(m) => "Failed to render entity template: "@ + m@,
                SchemaError::WriteError(p) => "Failed to write entity file: "@ + p@,
                SchemaError::NoInputFilesFound(p) => "No SQL files found in "@ + p@,
            },
    {
        match self {
            SchemaError::DirectoryReadError(p) => String::from_str("Error reading directory: ").concat(
                p.as_str(),
            ),
            SchemaError::FileReadError(p) => String::from_str("Error reading file: ").concat(
                p.as_str(),
            ),
            SchemaError::ParseError(m) => String::from_str("Failed to parse SQL with error: ").concat(
                m.as_str(),
            ),
            SchemaError::UnknownTableReference(t) => String::from_str(
                "Alter table references unknown table: ",
            ).concat(t.as_str()),
            SchemaError::RenderError(m) => String::from_str(
                "Failed to render entity template: ",
            ).concat(m.as_str()),
            SchemaError::WriteError(p) => String::from_str("Failed to write entity file: ").concat(
                p.as_str(),
            ),
            SchemaError::NoInputFilesFound(p) => String::from_str("No SQL files found in ").concat(
                p.as_str(),
            ),
        }
    }
}

} // verus!
