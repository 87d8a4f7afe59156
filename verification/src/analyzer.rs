pub mod php_types;
pub mod schema;
pub mod types;

pub use php_types::{map_sql_to_php_data_type, PhpDataType, PhpType};
pub use schema::{process_sql_file, SchemaAnalyzer};
pub use types::{Column, DType, EngineData, Table};
