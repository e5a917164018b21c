use teamwork::strings::{camel_to_snake_case, decimal_text};

#[test]
fn test_camel_to_snake_case() {
    assert_eq!(camel_to_snake_case("camelCase".to_string()), "camel_case");
    assert_eq!(
        camel_to_snake_case("ThisIsATest".to_string()),
        "this_is_a_test"
    );
    assert_eq!(camel_to_snake_case("ABC".to_string()), "a_b_c");
    assert_eq!(camel_to_snake_case("simple".to_string()), "simple");
    assert_eq!(camel_to_snake_case("".to_string()), "");
}

#[test]
fn snake_case_of_resource_names() {
    assert_eq!(camel_to_snake_case("BackupCode".to_string()), "backup_code");
    assert_eq!(camel_to_snake_case("TeamUser".to_string()), "team_user");
    assert_eq!(camel_to_snake_case("User".to_string()), "user");
}

#[test]
fn decimal_text_values() {
    assert_eq!(decimal_text(0), "0");
    assert_eq!(decimal_text(7), "7");
    assert_eq!(decimal_text(1234567890), "1234567890");
    assert_eq!(decimal_text(u64::MAX), "18446744073709551615");
}
