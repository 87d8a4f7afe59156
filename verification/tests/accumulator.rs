use bde::analyzer::{EngineData, PhpType, SchemaAnalyzer};
use bde::errors::SchemaError;
use bde::parser::ast::{AlterOp, ColumnConstraint, ColumnDefinition, SchemaStatement, SqlType};

fn column(name: &str, data_type: SqlType, options: Vec<ColumnConstraint>) -> ColumnDefinition {
    ColumnDefinition { name: name.to_string(), data_type, options }
}

#[test]
fn create_table_statement_appends_one_table() {
    let mut data = EngineData { tables: vec![] };
    let stmt = SchemaStatement::CreateTable {
        name: "users".to_string(),
        columns: vec![
            column("id", SqlType::Int, vec![ColumnConstraint::NotNull]),
            column("name", SqlType::Varchar, vec![]),
        ],
    };
    SchemaAnalyzer::fold_statement(&mut data, stmt).unwrap();
    assert_eq!(data.tables.len(), 1);
    let table = &data.tables[0];
    assert_eq!(table.name.as_str(), "users");
    assert_eq!(table.columns.len(), 2);
    assert_eq!(table.columns[0].name.as_str(), "id");
    assert_eq!(table.columns[1].name.as_str(), "name");
}

#[test]
fn add_column_appends_without_disturbing() {
    let mut data = EngineData { tables: vec![] };
    let create = SchemaStatement::CreateTable {
        name: "users".to_string(),
        columns: vec![column("id", SqlType::Int, vec![ColumnConstraint::NotNull])],
    };
    SchemaAnalyzer::fold_statement(&mut data, create).unwrap();
    let alter = SchemaStatement::AlterTable {
        name: "users".to_string(),
        operations: vec![AlterOp::AddColumn(column("age", SqlType::Int, vec![]))],
    };
    SchemaAnalyzer::fold_statement(&mut data, alter).unwrap();
    let table = &data.tables[0];
    assert_eq!(table.columns.len(), 2);
    assert_eq!(table.columns[0].name.as_str(), "id");
    assert!(!table.columns[0].data_type.nullable);
    assert_eq!(table.columns[1].name.as_str(), "age");
    assert!(table.columns[1].data_type.nullable);
}

#[test]
fn alter_unknown_table_leaves_schema_untouched() {
    let mut data = EngineData { tables: vec![] };
    let create = SchemaStatement::CreateTable {
        name: "users".to_string(),
        columns: vec![column("id", SqlType::Int, vec![])],
    };
    SchemaAnalyzer::fold_statement(&mut data, create).unwrap();
    let alter = SchemaStatement::AlterTable {
        name: "missing".to_string(),
        operations: vec![AlterOp::AddColumn(column("age", SqlType::Int, vec![]))],
    };
    let err = SchemaAnalyzer::fold_statement(&mut data, alter).unwrap_err();
    match err {
        SchemaError::UnknownTableReference(name) => assert_eq!(name.as_str(), "missing"),
        other => panic!("expected an unknown-table error, got {:?}", other),
    }
    assert_eq!(data.tables.len(), 1);
    assert_eq!(data.tables[0].columns.len(), 1);
}

#[test]
fn nullability_comes_only_from_not_null_and_primary() {
    let mut data = EngineData { tables: vec![] };
    let stmt = SchemaStatement::CreateTable {
        name: "t".to_string(),
        columns: vec![
            column("a", SqlType::Int, vec![]),
            column("b", SqlType::Int, vec![ColumnConstraint::NotNull]),
            column("c", SqlType::Int, vec![ColumnConstraint::Unique { is_primary: true }]),
            column("d", SqlType::Int, vec![ColumnConstraint::Unique { is_primary: false }]),
            column("e", SqlType::Int, vec![ColumnConstraint::Other]),
        ],
    };
    SchemaAnalyzer::fold_statement(&mut data, stmt).unwrap();
    let cols = &data.tables[0].columns;
    assert!(cols[0].data_type.nullable);
    assert!(!cols[1].data_type.nullable);
    assert!(!cols[2].data_type.nullable);
    assert!(cols[3].data_type.nullable);
    assert!(cols[4].data_type.nullable);
}

#[test]
fn unrelated_statements_and_unsupported_operations_change_nothing() {
    let mut data = EngineData { tables: vec![] };
    let statements = vec![
        SchemaStatement::Other,
        SchemaStatement::CreateTable {
            name: "t".to_string(),
            columns: vec![column("a", SqlType::Int, vec![])],
        },
        SchemaStatement::AlterTable {
            name: "t".to_string(),
            operations: vec![AlterOp::Other],
        },
        SchemaStatement::Other,
    ];
    SchemaAnalyzer::analyze_sql_statements(&mut data, statements).unwrap();
    assert_eq!(data.tables.len(), 1);
    assert_eq!(data.tables[0].columns.len(), 1);
}

#[test]
fn descriptor_nullability_matches_column_nullability() {
    let c = SchemaAnalyzer::analyze_column_def(column(
        "x",
        SqlType::Timestamp,
        vec![ColumnConstraint::NotNull],
    ));
    assert_eq!(c.data_type.php_type.php_type, PhpType::DateTime);
    assert!(!c.data_type.nullable);
    assert!(!c.data_type.php_type.is_nullable);
    assert_eq!(c.data_type.php_type.type_hint.as_str(), "DateTime");
}
