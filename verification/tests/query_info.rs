use bde::parser::extract_query_info::{
    DeleteData, QueryExpr, QueryStatement, SelectData, TableRef,
};
use bde::parser::{extract_query_info, QueryType};

fn select_users_by_id() -> QueryStatement {
    QueryStatement::Select(SelectData {
        from: vec![TableRef::Named(vec!["users".to_string()])],
        selection: Some(QueryExpr::BinaryOp {
            left: Box::new(QueryExpr::Ident("id".to_string())),
            right: Box::new(QueryExpr::Ident(":id".to_string())),
        }),
    })
}

#[test]
fn extracts_name_annotation_table_and_parameters() {
    let info = extract_query_info("-- name: GetUserByID :one", &select_users_by_id()).unwrap();
    assert_eq!(info.name().as_str(), "GetUserByID");
    assert_eq!(info.return_type().as_str(), "one");
    assert_eq!(info.query_type(), QueryType::Select);
    assert_eq!(info.target_table().as_str(), "users");
    assert_eq!(info.parameters().len(), 1);
    assert_eq!(info.parameters()[0].as_str(), ":id");
}

#[test]
fn annotation_is_optional() {
    let info = extract_query_info("-- name: GetUserByID", &select_users_by_id()).unwrap();
    assert_eq!(info.name().as_str(), "GetUserByID");
    assert_eq!(info.return_type().as_str(), "");
}

#[test]
fn malformed_comment_is_rejected() {
    let err = extract_query_info("name: GetUserByID", &select_users_by_id()).unwrap_err();
    assert_eq!(err.as_str(), "Invalid comment format");
    let err = extract_query_info("-- label: X Y", &select_users_by_id()).unwrap_err();
    assert_eq!(err.as_str(), "Invalid comment format");
}

#[test]
fn unsupported_statements_are_rejected() {
    let err = extract_query_info("-- name: X :exec", &QueryStatement::Other).unwrap_err();
    assert_eq!(err.as_str(), "Unsupported statement type");
    let err = extract_query_info("-- name: X :exec", &QueryStatement::NonSelectQuery).unwrap_err();
    assert_eq!(err.as_str(), "Unsupported query body type");
}

#[test]
fn delete_takes_the_first_listed_table() {
    let stmt = QueryStatement::Delete(DeleteData {
        tables: vec![vec!["db".to_string(), "users".to_string()]],
        from: vec![],
        selection: Some(QueryExpr::BinaryOp {
            left: Box::new(QueryExpr::Ident("id".to_string())),
            right: Box::new(QueryExpr::Ident(":target".to_string())),
        }),
    });
    let info = extract_query_info("-- name: DeleteUser :exec", &stmt).unwrap();
    assert_eq!(info.query_type(), QueryType::Delete);
    assert_eq!(info.target_table().as_str(), "db.users");
    assert_eq!(info.parameters()[0].as_str(), ":target");
}

#[test]
fn delete_falls_back_to_from_then_unknown() {
    let stmt = QueryStatement::Delete(DeleteData {
        tables: vec![],
        from: vec![TableRef::Named(vec!["users".to_string()])],
        selection: None,
    });
    let info = extract_query_info("-- name: D", &stmt).unwrap();
    assert_eq!(info.target_table().as_str(), "users");
    assert_eq!(info.parameters().len(), 0);

    let stmt = QueryStatement::Delete(DeleteData { tables: vec![], from: vec![], selection: None });
    let info = extract_query_info("-- name: D", &stmt).unwrap();
    assert_eq!(info.target_table().as_str(), "unknown");
}

#[test]
fn select_without_plain_table_is_unknown() {
    let stmt = QueryStatement::Select(SelectData {
        from: vec![TableRef::Other],
        selection: None,
    });
    let info = extract_query_info("-- name: S", &stmt).unwrap();
    assert_eq!(info.target_table().as_str(), "unknown");
}

#[test]
fn parameters_keep_walk_order_and_skip_plain_identifiers() {
    let expr = QueryExpr::BinaryOp {
        left: Box::new(QueryExpr::BinaryOp {
            left: Box::new(QueryExpr::Ident(":first".to_string())),
            right: Box::new(QueryExpr::Ident("col".to_string())),
        }),
        right: Box::new(QueryExpr::Ident(":second".to_string())),
    };
    let stmt = QueryStatement::Select(SelectData {
        from: vec![TableRef::Named(vec!["t".to_string()])],
        selection: Some(expr),
    });
    let info = extract_query_info("-- name: P", &stmt).unwrap();
    assert_eq!(info.parameters().len(), 2);
    assert_eq!(info.parameters()[0].as_str(), ":first");
    assert_eq!(info.parameters()[1].as_str(), ":second");
}
