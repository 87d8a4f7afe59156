use bde::generator::{entity_file_name, to_pascal_case};

#[test]
fn pascal_case_capitalizes_segments() {
    assert_eq!(to_pascal_case("user_accounts").as_str(), "UserAccounts");
    assert_eq!(to_pascal_case("users").as_str(), "Users");
    assert_eq!(to_pascal_case("a_b_c").as_str(), "ABC");
    assert_eq!(to_pascal_case("__x").as_str(), "X");
    assert_eq!(to_pascal_case("").as_str(), "");
    assert_eq!(to_pascal_case("already_Upper").as_str(), "AlreadyUpper");
}

#[test]
fn generated_file_is_named_after_the_table() {
    assert_eq!(entity_file_name("user_accounts").as_str(), "UserAccounts.php");
    assert_eq!(entity_file_name("users").as_str(), "Users.php");
}
