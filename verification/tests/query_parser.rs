use bde::parser::sql::is_sql_extension;
use bde::parser::QuerySqlFileParser;

#[test]
fn test_queries_sql_file_parser() {
    let content = "-- name: GetUserByID :one
SELECT *
FROM users
WHERE id = abcdefg;

-- name: DeleteUser :exec
DELETE
FROM users
WHERE id = 1;";

    let parser = QuerySqlFileParser::default();
    let queries = parser.divide_content_into_queries(&content).unwrap();
    let statements = parser.parse_sql(&queries).unwrap();
    assert_eq!(queries.len(), 2);
    assert_eq!(statements.len(), 2);
}

#[test]
fn divide_splits_at_name_markers_and_trims() {
    let content = "junk before\n-- name: A\nSELECT 1;\n\n-- name: B\nSELECT 2;\n";
    let parser = QuerySqlFileParser::default();
    let queries = parser.divide_content_into_queries(&content).unwrap();
    assert_eq!(queries.len(), 2);
    assert_eq!(queries[0].as_str(), "-- name: A\nSELECT 1;");
    assert_eq!(queries[1].as_str(), "-- name: B\nSELECT 2;");
}

#[test]
fn divide_without_markers_yields_nothing() {
    let parser = QuerySqlFileParser::default();
    let queries = parser
        .divide_content_into_queries("SELECT 1;\nSELECT 2;\n")
        .unwrap();
    assert_eq!(queries.len(), 0);
}

#[test]
fn divide_accepts_indented_markers_and_crlf() {
    let content = "  -- name: A :one\r\nSELECT 1;\r\n";
    let parser = QuerySqlFileParser::default();
    let queries = parser.divide_content_into_queries(&content).unwrap();
    assert_eq!(queries.len(), 1);
    assert_eq!(queries[0].as_str(), "-- name: A :one\nSELECT 1;");
}

#[test]
fn parse_sql_fails_on_a_bad_block() {
    let parser = QuerySqlFileParser::default();
    let queries = vec!["-- name: Bad\nSELECT ((((".to_string()];
    assert!(parser.parse_sql(&queries).is_err());
}

#[test]
fn sql_extension_check_ignores_case_and_length() {
    assert!(is_sql_extension("sql"));
    assert!(is_sql_extension("SQL"));
    assert!(is_sql_extension("Sql"));
    assert!(!is_sql_extension("txt"));
    assert!(!is_sql_extension("sqlx"));
    assert!(!is_sql_extension(""));
}
