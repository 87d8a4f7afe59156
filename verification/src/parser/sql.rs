use crate::errors::SchemaError;
use crate::parser::ast::{
    stmt_views, AlterOp, ColumnConstraint, ColumnDefinition, SchemaStatement, SchemaStatementV,
    SqlType,
};
use vstd::prelude::*;
use vstd::string::StrSliceExecFns;

verus! {

/// ASCII lowercasing of one character: letters between 'A' and 'Z' move
/// to their lower-case counterpart, everything else is unchanged.
pub open spec fn spec_ascii_lower(c: char) -> char {
    if 'A' <= c && c <= 'Z' {
        (((c as u32) + 32) as u32) as char
    } else {
        c
    }
}

/// ASCII lowercasing of one character.
fn ascii_lower(c: char) -> (r: char)
    ensures
        r == spec_ascii_lower(c),
{
    if 'A' <= c && c <= 'Z' {
        ((c as u8) + 32) as char
    } else {
        c
    }
}

/// Whether a file extension, lowercased, reads `sql`: the rule by which
/// input files are picked from a schema or query directory.
pub fn is_sql_extension(ext: &str) -> (r: bool)
    ensures
        r == (ext@.map_values(|c: char| spec_ascii_lower(c)) == "sql"@),
{
    proof {
        reveal_strlit("sql");
    }
    let ghost lowered = ext@.map_values(|c: char| spec_ascii_lower(c));
    let n = ext.unicode_len();
    if n != 3 {
        proof {
            assert(lowered.len() == ext@.len());
        }
        return false;
    }
    let r = ascii_lower(ext.get_char(0)) == 's' && ascii_lower(ext.get_char(1)) == 'q'
        && ascii_lower(ext.get_char(2)) == 'l';
    proof {
        assert(lowered[0] == spec_ascii_lower(ext@[0]));
        assert(lowered[1] == spec_ascii_lower(ext@[1]));
        assert(lowered[2] == spec_ascii_lower(ext@[2]));
        if r {
            assert(lowered =~= "sql"@);
        } else {
            if lowered == "sql"@ {
                assert(lowered[0] == "sql"@[0]);
                assert(lowered[1] == "sql"@[1]);
                assert(lowered[2] == "sql"@[2]);
            }
        }
    }
    r
}

/// sqlparser's AST statement type, opaque to the library: values of it
/// are carried through and read only by the trusted accessors below.
#[verifier::external_type_specification]
#[verifier::external_body]
pub struct ExStatement(sqlparser::ast::Statement);

/// sqlparser's raw column definition type, opaque to the library.
#[verifier::external_type_specification]
#[verifier::external_body]
pub struct ExColumnDef(sqlparser::ast::ColumnDef);

/// sqlparser's ALTER TABLE operation type, opaque to the library.
#[verifier::external_type_specification]
#[verifier::external_body]
pub struct ExAlterTableOperation(sqlparser::ast::AlterTableOperation);

/// sqlparser's column option type, opaque to the library.
#[verifier::external_type_specification]
#[verifier::external_body]
pub struct ExColumnOption(sqlparser::ast::ColumnOption);

/// sqlparser's SQL data type, opaque to the library.
#[verifier::external_type_specification]
#[verifier::external_body]
pub struct ExDataType(sqlparser::ast::DataType);

/// One statement with its outside parts still unconverted.
enum RawStatement {
    CreateTable { name: String, columns: Vec<sqlparser::ast::ColumnDef> },
    AlterTable { name: String, operations: Vec<sqlparser::ast::AlterTableOperation> },
    Other,
}

/// One ALTER TABLE operation with its outside part still unconverted.
enum RawAlterOp {
    AddColumn(sqlparser::ast::ColumnDef),
    Other,
}

/// One column definition with its outside parts still unconverted.
struct RawColumnDef {
    name: String,
    data_type: sqlparser::ast::DataType,
    options: Vec<sqlparser::ast::ColumnOption>,
}

/// Relies on sqlparser's Statement variants: CREATE TABLE and ALTER TABLE
/// are told apart and their name (rendered), column definitions and
/// operations are moved out; every other statement kind is Other.
#[verifier::external_body]
fn statement_parts(s: &sqlparser::ast::Statement) -> RawStatement {
    match s {
        sqlparser::ast::Statement::CreateTable(ct) => RawStatement::CreateTable {
            name: ct.name.to_string(),
            columns: ct.columns.clone(),
        },
        sqlparser::ast::Statement::AlterTable(at) => RawStatement::AlterTable {
            name: at.name.to_string(),
            operations: at.operations.clone(),
        },
        _ => RawStatement::Other,
    }
}

/// Relies on sqlparser's AlterTableOperation variants: ADD COLUMN is told
/// apart and its column definition moved out; everything else is Other.
#[verifier::external_body]
fn alter_op_parts(op: &sqlparser::ast::AlterTableOperation) -> RawAlterOp {
    match op {
        sqlparser::ast::AlterTableOperation::AddColumn { column_def, .. } => RawAlterOp::AddColumn(
            column_def.clone(),
        ),
        _ => RawAlterOp::Other,
    }
}

/// Relies on sqlparser's ColumnDef fields: the column name (rendered),
/// the data type, and the option of each option definition, moved out.
#[verifier::external_body]
fn column_def_parts(c: &sqlparser::ast::ColumnDef) -> RawColumnDef {
    RawColumnDef {
        name: c.name.to_string(),
        data_type: c.data_type.clone(),
        options: c.options.iter().map(|o| o.option.clone()).collect(),
    }
}

/// Relies on sqlparser's ColumnOption variants: NOT NULL, PRIMARY KEY and
/// plain UNIQUE are told apart; every other option kind is Other.
#[verifier::external_body]
fn column_option_kind(o: &sqlparser::ast::ColumnOption) -> ColumnConstraint {
    match o {
        sqlparser::ast::ColumnOption::NotNull => ColumnConstraint::NotNull,
        sqlparser::ast::ColumnOption::PrimaryKey(_) => ColumnConstraint::Unique {
            is_primary: true,
        },
        sqlparser::ast::ColumnOption::Unique(_) => ColumnConstraint::Unique { is_primary: false },
        _ => ColumnConstraint::Other,
    }
}

/// Relies on sqlparser's DataType variants: each recognized signed
/// integer keyword is told apart and mapped to its own tag.
#[verifier::external_body]
fn int_sql_type(dt: &sqlparser::ast::DataType) -> Option<SqlType> {
    match dt {
        sqlparser::ast::DataType::SmallInt(_) => Some(SqlType::SmallInt),
        sqlparser::ast::DataType::Int(_) => Some(SqlType::Int),
        sqlparser::ast::DataType::BigInt(_) => Some(SqlType::BigInt),
        sqlparser::ast::DataType::Int2(_) => Some(SqlType::Int2),
        sqlparser::ast::DataType::Int4(_) => Some(SqlType::Int4),
        sqlparser::ast::DataType::Int8(_) => Some(SqlType::Int8),
        sqlparser::ast::DataType::Int16 => Some(SqlType::Int16),
        sqlparser::ast::DataType::Int32 => Some(SqlType::Int32),
        sqlparser::ast::DataType::Int64 => Some(SqlType::Int64),
        _ => None,
    }
}

/// Relies on sqlparser's DataType variants: each recognized unsigned
/// integer keyword is told apart and mapped to its own tag.
#[verifier::external_body]
fn unsigned_sql_type(dt: &sqlparser::ast::DataType) -> Option<SqlType> {
    match dt {
        sqlparser::ast::DataType::UInt8 => Some(SqlType::UInt8),
        sqlparser::ast::DataType::UInt16 => Some(SqlType::UInt16),
        sqlparser::ast::DataType::UInt32 => Some(SqlType::UInt32),
        sqlparser::ast::DataType::UInt64 => Some(SqlType::UInt64),
        _ => None,
    }
}

/// Relies on sqlparser's DataType variants: each recognized floating or
/// fixed-decimal keyword is told apart and mapped to its own tag.
#[verifier::external_body]
fn float_sql_type(dt: &sqlparser::ast::DataType) -> Option<SqlType> {
    match dt {
        sqlparser::ast::DataType::Float(_) => Some(SqlType::Float),
        sqlparser::ast::DataType::Float4 => Some(SqlType::Float4),
        sqlparser::ast::DataType::Float8 => Some(SqlType::Float8),
        sqlparser::ast::DataType::Float32 => Some(SqlType::Float32),
        sqlparser::ast::DataType::Float64 => Some(SqlType::Float64),
        sqlparser::ast::DataType::Decimal(_) => Some(SqlType::Decimal),
        sqlparser::ast::DataType::Real => Some(SqlType::Real),
        sqlparser::ast::DataType::DoublePrecision => Some(SqlType::DoublePrecision),
        _ => None,
    }
}

/// Relies on sqlparser's DataType variants: each recognized character,
/// binary-text or string keyword is told apart and mapped to its own tag.
#[verifier::external_body]
fn text_sql_type(dt: &sqlparser::ast::DataType) -> Option<SqlType> {
    match dt {
        sqlparser::ast::DataType::Varchar(_) => Some(SqlType::Varchar),
        sqlparser::ast::DataType::Varbinary(_) => Some(SqlType::Varbinary),
        sqlparser::ast::DataType::VarBit(_) => Some(SqlType::VarBit),
        sqlparser::ast::DataType::Char(_) => Some(SqlType::Char),
        sqlparser::ast::DataType::Character(_) => Some(SqlType::Character),
        sqlparser::ast::DataType::CharLargeObject(_) => Some(SqlType::CharLargeObject),
        sqlparser::ast::DataType::String(_) => Some(SqlType::StringType),
        sqlparser::ast::DataType::FixedString(_) => Some(SqlType::FixedString),
        _ => None,
    }
}

/// Relies on sqlparser's DataType variants: the boolean, array and JSON
/// keywords are told apart and mapped to their own tags.
#[verifier::external_body]
fn bool_array_sql_type(dt: &sqlparser::ast::DataType) -> Option<SqlType> {
    match dt {
        sqlparser::ast::DataType::Bool => Some(SqlType::Bool),
        sqlparser::ast::DataType::Boolean => Some(SqlType::Boolean),
        sqlparser::ast::DataType::Array(_) => Some(SqlType::Array),
        sqlparser::ast::DataType::JSON => Some(SqlType::Json),
        sqlparser::ast::DataType::JSONB => Some(SqlType::Jsonb),
        _ => None,
    }
}

/// Relies on sqlparser's DataType variants: each recognized date or time
/// keyword is told apart and mapped to its own tag.
#[verifier::external_body]
fn datetime_sql_type(dt: &sqlparser::ast::DataType) -> Option<SqlType> {
    match dt {
        sqlparser::ast::DataType::Date => Some(SqlType::Date),
        sqlparser::ast::DataType::Date32 => Some(SqlType::Date32),
        sqlparser::ast::DataType::Datetime(_) => Some(SqlType::Datetime),
        sqlparser::ast::DataType::Datetime64(_, _) => Some(SqlType::Datetime64),
        sqlparser::ast::DataType::Time(_, _) => Some(SqlType::Time),
        sqlparser::ast::DataType::Timestamp(_, _) => Some(SqlType::Timestamp),
        _ => None,
    }
}

/// Relies on sqlparser's DataType::Custom: the first part of the custom
/// type's object name, rendered; None for every other variant.
#[verifier::external_body]
fn custom_sql_name(dt: &sqlparser::ast::DataType) -> Option<String> {
    match dt {
        sqlparser::ast::DataType::Custom(name, _) => match name.0.first() {
            Some(part) => Some(part.to_string()),
            None => Some(String::new()),
        },
        _ => None,
    }
}

/// Reduces one parsed data type to the library's source-type tag; a type
/// no accessor recognizes becomes Other.
fn classify_data_type(dt: &sqlparser::ast::DataType) -> SqlType {
    if let Some(t) = int_sql_type(dt) {
        return t;
    }
    if let Some(t) = unsigned_sql_type(dt) {
        return t;
    }
    if let Some(t) = float_sql_type(dt) {
        return t;
    }
    if let Some(t) = text_sql_type(dt) {
        return t;
    }
    if let Some(t) = bool_array_sql_type(dt) {
        return t;
    }
    if let Some(t) = datetime_sql_type(dt) {
        return t;
    }
    if let Some(name) = custom_sql_name(dt) {
        return SqlType::Custom(name);
    }
    SqlType::Other
}

/// Reduces one parsed column definition to the library's model.
fn convert_column_def(c: &sqlparser::ast::ColumnDef) -> ColumnDefinition {
    let raw = column_def_parts(c);
    let mut options: Vec<ColumnConstraint> = Vec::new();
    let mut i: usize = 0;
    while i < raw.options.len()
        invariant
            i <= raw.options@.len(),
        decreases raw.options@.len() - i,
    {
        options.push(column_option_kind(&raw.options[i]));
        i += 1;
    }
    ColumnDefinition { name: raw.name, data_type: classify_data_type(&raw.data_type), options }
}

/// Reduces one parsed statement to the library's statement model.
fn convert_statement(s: &sqlparser::ast::Statement) -> SchemaStatement {
    match statement_parts(s) {
        RawStatement::CreateTable { name, columns } => {
            let mut defs: Vec<ColumnDefinition> = Vec::new();
            let mut i: usize = 0;
            while i < columns.len()
                invariant
                    i <= columns@.len(),
                decreases columns@.len() - i,
            {
                defs.push(convert_column_def(&columns[i]));
                i += 1;
            }
            SchemaStatement::CreateTable { name, columns: defs }
        },
        RawStatement::AlterTable { name, operations } => {
            let mut ops: Vec<AlterOp> = Vec::new();
            let mut i: usize = 0;
            while i < operations.len()
                invariant
                    i <= operations@.len(),
                decreases operations@.len() - i,
            {
                match alter_op_parts(&operations[i]) {
                    RawAlterOp::AddColumn(def) => {
                        ops.push(AlterOp::AddColumn(convert_column_def(&def)));
                    },
                    RawAlterOp::Other => {
                        ops.push(AlterOp::Other);
                    },
                }
                i += 1;
            }
            SchemaStatement::AlterTable { name, operations: ops }
        },
        RawStatement::Other => SchemaStatement::Other,
    }
}

/// Reduces a whole parsed statement list to the library's model, in
/// order: one statement model per parsed statement.
fn convert_statements(statements: &Vec<sqlparser::ast::Statement>) -> (converted: Vec<
    SchemaStatement,
>)
    ensures
        converted@.len() == statements@.len(),
{
    let mut converted: Vec<SchemaStatement> = Vec::new();
    let mut i: usize = 0;
    while i < statements.len()
        invariant
            i <= statements@.len(),
            converted@.len() == i,
        decreases statements@.len() - i,
    {
        converted.push(convert_statement(&statements[i]));
        i += 1;
    }
    converted
}

/// The SQL-file parser: hands SQL text to the external parser and returns
/// its AST statements.
pub struct SqlFileParser;

impl Default for SqlFileParser {
    fn default() -> (r: Self)
        ensures
            r == SqlFileParser,
    {
        SqlFileParser
    }
}

impl SqlFileParser {
    /// Parses a SQL string into AST statements.
    /// Relies on sqlparser's Parser::parse_sql with the MySQL dialect: it
    /// returns the statement list, or a parse error that is carried here
    /// as the parse-error condition with the parser's message. Whether a
    /// text parses depends on the text alone (the dialect is fixed), so
    /// acceptance carries the name `parse_ok`.
    #[verifier::external_body]
    pub fn parse_sql(&self, sql: &str) -> (r: Result<Vec<sqlparser::ast::Statement>, SchemaError>)
        ensures
            r is Ok <==> parse_ok(sql@),
            r matches Err(e) ==> e is ParseError,
    {
        sqlparser::parser::Parser::parse_sql(&sqlparser::dialect::MySqlDialect {}, sql).map_err(
            |e| SchemaError::ParseError(e.to_string()),
        )
    }
}

/// Whether the external SQL parser accepts a text: a function of the
/// text alone, since the dialect is fixed.
pub uninterp spec fn parse_ok(s: Seq<char>) -> bool;

/// The statement models that parsing an accepted text yields, in
/// statement order: a function of the text alone.
pub uninterp spec fn parse_model(s: Seq<char>) -> Seq<SchemaStatementV>;

/// Parses a SQL string and reduces its statements to the library's model.
/// Relies on sqlparser's Parser::parse_sql with the MySQL dialect: its
/// result depends on the text alone, so acceptance and the produced
/// statement models carry the names `parse_ok` and `parse_model`; a
/// rejection becomes the parse-error condition with the parser's message.
/// The reduction in the body is `convert_statements`, the variant-telling
/// walk over the accessors above: `parse_model` names what parsing and
/// that walk together yield, and the tests pin it on concrete inputs.
#[verifier::external_body]
fn parse_schema_model(sql: &str) -> (r: Result<Vec<SchemaStatement>, SchemaError>)
    ensures
        r is Ok <==> parse_ok(sql@),
        r matches Ok(stmts) ==> stmt_views(stmts@) == parse_model(sql@),
        r matches Err(e) ==> e is ParseError,
{
    sqlparser::parser::Parser::parse_sql(&sqlparser::dialect::MySqlDialect {}, sql)
        .map(|statements| convert_statements(&statements))
        .map_err(|e| SchemaError::ParseError(e.to_string()))
}

/// Parses a SQL string into the library's statement models, in statement
/// order: the models of an accepted text, or the parse-error condition
/// for a rejected one.
pub fn parse_schema_statements(sql: &str) -> (r: Result<Vec<SchemaStatement>, SchemaError>)
    ensures
        r is Ok <==> parse_ok(sql@),
        r matches Ok(stmts) ==> stmt_views(stmts@) == parse_model(sql@),
        r matches Err(e) ==> e is ParseError,
{
    parse_schema_model(sql)
}

/// A parsed SQL file: where it came from, and its statements.
pub struct SqlFile {
    pub path: String,
    pub statements: Vec<sqlparser::ast::Statement>,
}

} // verus!
