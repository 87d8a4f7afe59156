pub mod ast;
pub mod extract_query_info;
pub mod query;
pub mod sql;

pub use extract_query_info::{extract_query_info, QueryInfo, QueryType};
pub use query::{QueriesMap, QuerySqlFile, QuerySqlFileParser};
pub use sql::{SqlFile, SqlFileParser};
