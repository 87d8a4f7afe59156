use bde::analyzer::{process_sql_file, PhpType};
use bde::errors::SchemaError;
use bde::parser::ast::{ColumnConstraint, SchemaStatement, SqlType};
use bde::parser::sql::parse_schema_statements;

#[test]
fn create_table_yields_one_table_with_columns_in_order() {
    let sql = "CREATE TABLE users (id INT NOT NULL, name VARCHAR(255), age INT);".to_string();
    let data = process_sql_file(sql).unwrap();
    assert_eq!(data.tables.len(), 1);
    let table = &data.tables[0];
    assert_eq!(table.name.as_str(), "users");
    assert_eq!(table.columns.len(), 3);
    assert_eq!(table.columns[0].name.as_str(), "id");
    assert_eq!(table.columns[1].name.as_str(), "name");
    assert_eq!(table.columns[2].name.as_str(), "age");
}

#[test]
fn alter_table_appends_column_at_the_end() {
    let sql = "CREATE TABLE users (id INT NOT NULL, name VARCHAR(255));\n\
               ALTER TABLE users ADD COLUMN age INT;"
        .to_string();
    let data = process_sql_file(sql).unwrap();
    assert_eq!(data.tables.len(), 1);
    let table = &data.tables[0];
    assert_eq!(table.name.as_str(), "users");
    assert_eq!(table.columns.len(), 3);

    let id = &table.columns[0];
    assert_eq!(id.name.as_str(), "id");
    assert_eq!(id.data_type.php_type.php_type, PhpType::Int);
    assert!(!id.data_type.nullable);

    let name = &table.columns[1];
    assert_eq!(name.name.as_str(), "name");
    assert_eq!(name.data_type.php_type.php_type, PhpType::String);
    assert!(name.data_type.nullable);

    let age = &table.columns[2];
    assert_eq!(age.name.as_str(), "age");
    assert_eq!(age.data_type.php_type.php_type, PhpType::Int);
    assert!(age.data_type.nullable);
}

#[test]
fn alter_against_unknown_table_fails_without_partial_schema() {
    let sql = "CREATE TABLE users (id INT);\n\
               ALTER TABLE missing ADD COLUMN age INT;"
        .to_string();
    let err = process_sql_file(sql).unwrap_err();
    match err {
        SchemaError::UnknownTableReference(name) => assert_eq!(name.as_str(), "missing"),
        other => panic!("expected an unknown-table error, got {:?}", other),
    }
}

#[test]
fn unknown_table_error_message_names_the_table() {
    let err = SchemaError::UnknownTableReference("missing".to_string());
    assert_eq!(
        err.message().as_str(),
        "Alter table references unknown table: missing"
    );
}

#[test]
fn invalid_sql_is_a_parse_error() {
    let err = process_sql_file("CREATE TABLE ((((".to_string()).unwrap_err();
    assert!(matches!(err, SchemaError::ParseError(_)));
}

#[test]
fn primary_key_column_is_not_nullable() {
    let sql = "CREATE TABLE t (id INT PRIMARY KEY, tag VARCHAR(8) UNIQUE);".to_string();
    let data = process_sql_file(sql).unwrap();
    let table = &data.tables[0];
    assert!(!table.columns[0].data_type.nullable);
    assert!(table.columns[1].data_type.nullable);
}

#[test]
fn other_statements_are_ignored() {
    let sql = "CREATE TABLE t (id INT);\nSELECT * FROM t;".to_string();
    let data = process_sql_file(sql).unwrap();
    assert_eq!(data.tables.len(), 1);
    assert_eq!(data.tables[0].columns.len(), 1);
}

#[test]
fn serial_custom_type_maps_to_int() {
    let sql = "CREATE TABLE t (id SERIAL);".to_string();
    let data = process_sql_file(sql).unwrap();
    assert_eq!(data.tables[0].columns[0].data_type.php_type.php_type, PhpType::Int);
}

#[test]
fn unrecognized_type_degrades_to_mixed_and_generation_still_names_a_file() {
    let sql = "CREATE TABLE gadgets (blob_ish GEOMETRYTHING);".to_string();
    let data = process_sql_file(sql).unwrap();
    let column = &data.tables[0].columns[0];
    assert_eq!(column.data_type.php_type.php_type, PhpType::Mixed);
    assert_eq!(column.data_type.php_type.simple_type.as_str(), "mixed");
    assert_eq!(column.data_type.php_type.type_hint.as_str(), "mixed");
    let file = bde::generator::entity_file_name(data.tables[0].name.as_str());
    assert_eq!(file.as_str(), "Gadgets.php");
}

#[test]
fn duplicate_create_keeps_both_tables() {
    let sql = "CREATE TABLE t (a INT);\nCREATE TABLE t (b INT);".to_string();
    let data = process_sql_file(sql).unwrap();
    assert_eq!(data.tables.len(), 2);
    assert_eq!(data.tables[0].columns[0].name.as_str(), "a");
    assert_eq!(data.tables[1].columns[0].name.as_str(), "b");
}

#[test]
fn error_messages_name_what_they_concern() {
    assert_eq!(
        SchemaError::DirectoryReadError("schemas".to_string()).message().as_str(),
        "Error reading directory: schemas"
    );
    assert_eq!(
        SchemaError::FileReadError("a.sql".to_string()).message().as_str(),
        "Error reading file: a.sql"
    );
    assert_eq!(
        SchemaError::ParseError("boom".to_string()).message().as_str(),
        "Failed to parse SQL with error: boom"
    );
    assert_eq!(
        SchemaError::RenderError("tpl".to_string()).message().as_str(),
        "Failed to render entity template: tpl"
    );
    assert_eq!(
        SchemaError::WriteError("out/T.php".to_string()).message().as_str(),
        "Failed to write entity file: out/T.php"
    );
    assert_eq!(
        SchemaError::NoInputFilesFound("schemas".to_string()).message().as_str(),
        "No SQL files found in schemas"
    );
}

#[test]
fn parsed_statement_models_carry_the_statement_parts() {
    let statements =
        parse_schema_statements("CREATE TABLE t (a INT NOT NULL);\nALTER TABLE t ADD COLUMN b VARCHAR(8);")
            .unwrap();
    assert_eq!(statements.len(), 2);
    match &statements[0] {
        SchemaStatement::CreateTable { name, columns } => {
            assert_eq!(name.as_str(), "t");
            assert_eq!(columns.len(), 1);
            assert_eq!(columns[0].name.as_str(), "a");
            assert_eq!(columns[0].data_type, SqlType::Int);
            assert_eq!(columns[0].options, vec![ColumnConstraint::NotNull]);
        }
        _ => panic!("expected a CREATE TABLE model"),
    }
    assert!(matches!(&statements[1], SchemaStatement::AlterTable { .. }));
    assert!(parse_schema_statements("CREATE TABLE ((((").is_err());
}
