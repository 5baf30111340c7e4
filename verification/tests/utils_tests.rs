use tauri_ts_generator::utils::to_camel_case;

#[test]
fn test_to_camel_case_basic() {
    assert_eq!(to_camel_case("get_user"), "getUser");
    assert_eq!(to_camel_case("get_user_by_id"), "getUserById");
    assert_eq!(to_camel_case("hello"), "hello");
    assert_eq!(to_camel_case("HELLO"), "hELLO");
}

#[test]
fn test_to_camel_case_edge_cases() {
    // Double underscores - skipped
    assert_eq!(to_camel_case("get__user"), "getUser");
    // Leading underscore - treated as capitalize next (result is empty start)
    assert_eq!(to_camel_case("_private"), "Private");
    // Trailing underscore - just ignored
    assert_eq!(to_camel_case("trailing_"), "trailing");
    // Single letter
    assert_eq!(to_camel_case("a"), "a");
    // Numbers
    assert_eq!(to_camel_case("get_user_1"), "getUser1");
}

#[test]
fn test_to_camel_case_already_camel() {
    assert_eq!(to_camel_case("getUser"), "getUser");
    assert_eq!(to_camel_case("getUserById"), "getUserById");
}
