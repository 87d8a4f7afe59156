use bde::analyzer::{map_sql_to_php_data_type, PhpDataType, PhpType};
use bde::parser::ast::SqlType;

#[test]
fn string_forms_follow_one_rule() {
    let t = PhpDataType::new(PhpType::Int, false);
    assert_eq!(t.docblock_type.as_str(), "int");
    assert_eq!(t.type_hint.as_str(), "int");
    assert_eq!(t.simple_type.as_str(), "int");

    let t = PhpDataType::new(PhpType::Int, true);
    assert_eq!(t.docblock_type.as_str(), "?int");
    assert_eq!(t.type_hint.as_str(), "?int");
    assert_eq!(t.simple_type.as_str(), "int");

    let t = PhpDataType::new(PhpType::DateTime, true);
    assert_eq!(t.docblock_type.as_str(), "?DateTime");
    assert_eq!(t.type_hint.as_str(), "?DateTime");
    assert_eq!(t.simple_type.as_str(), "DateTime");
}

#[test]
fn mixed_type_hint_is_never_nullable_marked() {
    let t = PhpDataType::new(PhpType::Mixed, true);
    assert_eq!(t.docblock_type.as_str(), "?mixed");
    assert_eq!(t.type_hint.as_str(), "mixed");
    assert_eq!(t.simple_type.as_str(), "mixed");

    let t = PhpDataType::new(PhpType::Mixed, false);
    assert_eq!(t.docblock_type.as_str(), "mixed");
    assert_eq!(t.type_hint.as_str(), "mixed");
}

#[test]
fn mapping_is_pure_and_deterministic() {
    let a = map_sql_to_php_data_type(&SqlType::Varchar, true);
    let b = map_sql_to_php_data_type(&SqlType::Varchar, true);
    assert_eq!(a.php_type, b.php_type);
    assert_eq!(a.is_nullable, b.is_nullable);
    assert_eq!(a.docblock_type, b.docblock_type);
    assert_eq!(a.type_hint, b.type_hint);
    assert_eq!(a.simple_type, b.simple_type);
}

#[test]
fn mapping_table_families() {
    assert_eq!(map_sql_to_php_data_type(&SqlType::SmallInt, false).php_type, PhpType::Int);
    assert_eq!(map_sql_to_php_data_type(&SqlType::BigInt, false).php_type, PhpType::Int);
    assert_eq!(map_sql_to_php_data_type(&SqlType::UInt64, false).php_type, PhpType::Int);
    assert_eq!(map_sql_to_php_data_type(&SqlType::Float, false).php_type, PhpType::Float);
    assert_eq!(map_sql_to_php_data_type(&SqlType::Decimal, false).php_type, PhpType::Float);
    assert_eq!(map_sql_to_php_data_type(&SqlType::DoublePrecision, false).php_type, PhpType::Float);
    assert_eq!(map_sql_to_php_data_type(&SqlType::Bool, false).php_type, PhpType::Bool);
    assert_eq!(map_sql_to_php_data_type(&SqlType::Varchar, false).php_type, PhpType::String);
    assert_eq!(map_sql_to_php_data_type(&SqlType::FixedString, false).php_type, PhpType::String);
    assert_eq!(map_sql_to_php_data_type(&SqlType::Json, false).php_type, PhpType::Array);
    assert_eq!(map_sql_to_php_data_type(&SqlType::Array, false).php_type, PhpType::Array);
    assert_eq!(map_sql_to_php_data_type(&SqlType::Timestamp, false).php_type, PhpType::DateTime);
    assert_eq!(map_sql_to_php_data_type(&SqlType::Date, false).php_type, PhpType::DateTime);
    assert_eq!(map_sql_to_php_data_type(&SqlType::Other, false).php_type, PhpType::Mixed);
}

#[test]
fn serial_custom_type_is_integer_and_others_mixed() {
    let serial = map_sql_to_php_data_type(&SqlType::Custom("SERIAL".to_string()), false);
    assert_eq!(serial.php_type, PhpType::Int);
    let vendor = map_sql_to_php_data_type(&SqlType::Custom("GEOMETRY".to_string()), false);
    assert_eq!(vendor.php_type, PhpType::Mixed);
}

#[test]
fn descriptor_repeats_nullability() {
    let t = map_sql_to_php_data_type(&SqlType::Int, true);
    assert!(t.is_nullable);
    assert_eq!(t.type_hint.as_str(), "?int");
    let t = map_sql_to_php_data_type(&SqlType::Int, false);
    assert!(!t.is_nullable);
    assert_eq!(t.type_hint.as_str(), "int");
}

#[test]
fn simple_name_gives_bare_names() {
    assert_eq!(PhpType::Int.simple_name().as_str(), "int");
    assert_eq!(PhpType::Float.simple_name().as_str(), "float");
    assert_eq!(PhpType::String.simple_name().as_str(), "string");
    assert_eq!(PhpType::Bool.simple_name().as_str(), "bool");
    assert_eq!(PhpType::Array.simple_name().as_str(), "array");
    assert_eq!(PhpType::Mixed.simple_name().as_str(), "mixed");
    assert_eq!(PhpType::DateTime.simple_name().as_str(), "DateTime");
}
