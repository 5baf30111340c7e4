use tauri_ts_generator::known_types::{
    is_external_string_type, is_primitive_type, primitive_to_typescript,
};

#[test]
fn test_is_primitive_type() {
    assert!(is_primitive_type("String"));
    assert!(is_primitive_type("i32"));
    assert!(is_primitive_type("u64"));
    assert!(is_primitive_type("f64"));
    assert!(is_primitive_type("bool"));
    assert!(!is_primitive_type("User"));
    assert!(!is_primitive_type("DateTime"));
}

#[test]
fn test_is_external_string_type() {
    assert!(is_external_string_type("DateTime"));
    assert!(is_external_string_type("Uuid"));
    assert!(is_external_string_type("PathBuf"));
    assert!(!is_external_string_type("String"));
    assert!(!is_external_string_type("User"));
}

#[test]
fn known_types_test_primitive_to_typescript() {
    assert_eq!(primitive_to_typescript("String"), Some("string"));
    assert_eq!(primitive_to_typescript("str"), Some("string"));
    assert_eq!(primitive_to_typescript("i32"), Some("number"));
    assert_eq!(primitive_to_typescript("u64"), Some("number"));
    assert_eq!(primitive_to_typescript("f64"), Some("number"));
    assert_eq!(primitive_to_typescript("bool"), Some("boolean"));
    assert_eq!(primitive_to_typescript("DateTime"), Some("string"));
    assert_eq!(primitive_to_typescript("Duration"), Some("number"));
    assert_eq!(primitive_to_typescript("Value"), Some("unknown"));
    assert_eq!(primitive_to_typescript("Bytes"), Some("number[]"));
    assert_eq!(primitive_to_typescript("User"), None);
}
