use tauri_ts_generator::models::{RustType, VariantData};
use tauri_ts_generator::parser::{parse_types, parse_types_expanded};

fn test_path() -> String {
    "test.rs".to_string()
}

#[test]
fn test_parse_simple_struct() {
    let code = r#"
        #[derive(Serialize)]
        pub struct User {
            pub id: i32,
            pub name: String,
        }
    "#;

    let (structs, enums) = parse_types(code, &test_path()).unwrap();
    assert_eq!(structs.len(), 1);
    assert_eq!(enums.len(), 0);

    let user = &structs[0];
    assert_eq!(user.name, "User");
    assert_eq!(user.fields.len(), 2);
    assert_eq!(user.fields[0].name, "id");
    assert_eq!(user.fields[1].name, "name");
}

#[test]
fn test_parse_struct_with_generics() {
    let code = r#"
        #[derive(Serialize)]
        pub struct Wrapper<T> {
            pub data: T,
            pub count: i32,
        }
    "#;

    let (structs, _) = parse_types(code, &test_path()).unwrap();
    assert_eq!(structs.len(), 1);

    let wrapper = &structs[0];
    assert_eq!(wrapper.name, "Wrapper");
    assert_eq!(wrapper.generics, vec!["T"]);
    assert_eq!(wrapper.fields.len(), 2);

    // data field should be Generic(T)
    match &wrapper.fields[0].ty {
        RustType::Generic(name) => assert_eq!(name, "T"),
        other => panic!("Expected Generic(T), got {:?}", other),
    }
}

#[test]
fn test_parse_struct_with_multiple_generics() {
    let code = r#"
        #[derive(Serialize, Deserialize)]
        pub struct Pair<K, V> {
            pub key: K,
            pub value: V,
        }
    "#;

    let (structs, _) = parse_types(code, &test_path()).unwrap();
    assert_eq!(structs.len(), 1);

    let pair = &structs[0];
    assert_eq!(pair.generics, vec!["K", "V"]);
}

#[test]
fn test_parse_tuple_struct() {
    let code = r#"
        #[derive(Serialize)]
        pub struct Point(i32, i32);
    "#;

    let (structs, _) = parse_types(code, &test_path()).unwrap();
    assert_eq!(structs.len(), 1);

    let point = &structs[0];
    assert_eq!(point.name, "Point");
    assert_eq!(point.fields.len(), 2);
    assert_eq!(point.fields[0].name, "field0");
    assert_eq!(point.fields[1].name, "field1");
}

#[test]
fn test_parse_simple_enum() {
    let code = r#"
        #[derive(Serialize)]
        pub enum Status {
            Active,
            Inactive,
            Pending,
        }
    "#;

    let (structs, enums) = parse_types(code, &test_path()).unwrap();
    assert_eq!(structs.len(), 0);
    assert_eq!(enums.len(), 1);

    let status = &enums[0];
    assert_eq!(status.name, "Status");
    assert_eq!(status.variants.len(), 3);
    assert_eq!(status.variants[0].name, "Active");
    assert_eq!(status.variants[1].name, "Inactive");
    assert_eq!(status.variants[2].name, "Pending");

    // All should be unit variants
    for variant in &status.variants {
        match &variant.data {
            VariantData::Unit => {}
            other => panic!("Expected Unit, got {:?}", other),
        }
    }
}

#[test]
fn test_parse_enum_with_tuple_data() {
    let code = r#"
        #[derive(Serialize)]
        pub enum Message {
            Text(String),
            Number(i32),
            Pair(String, i32),
        }
    "#;

    let (_, enums) = parse_types(code, &test_path()).unwrap();
    assert_eq!(enums.len(), 1);

    let message = &enums[0];
    assert_eq!(message.variants.len(), 3);

    match &message.variants[0].data {
        VariantData::Tuple(types) => {
            assert_eq!(types.len(), 1);
        }
        other => panic!("Expected Tuple, got {:?}", other),
    }

    match &message.variants[2].data {
        VariantData::Tuple(types) => {
            assert_eq!(types.len(), 2);
        }
        other => panic!("Expected Tuple with 2 elements, got {:?}", other),
    }
}

#[test]
fn test_parse_enum_with_struct_variant() {
    let code = r#"
        #[derive(Serialize)]
        pub enum UserRole {
            Admin { permissions: Vec<String> },
            User,
            Guest,
        }
    "#;

    let (_, enums) = parse_types(code, &test_path()).unwrap();
    assert_eq!(enums.len(), 1);

    let role = &enums[0];

    match &role.variants[0].data {
        VariantData::Struct(fields) => {
            assert_eq!(fields.len(), 1);
            assert_eq!(fields[0].name, "permissions");
        }
        other => panic!("Expected Struct variant, got {:?}", other),
    }

    match &role.variants[1].data {
        VariantData::Unit => {}
        other => panic!("Expected Unit, got {:?}", other),
    }
}

#[test]
fn test_serde_rename_field() {
    let code = r#"
        #[derive(Serialize)]
        pub struct User {
            #[serde(rename = "userId")]
            pub id: i32,
            pub name: String,
        }
    "#;

    let (structs, _) = parse_types(code, &test_path()).unwrap();
    assert_eq!(structs.len(), 1);

    let user = &structs[0];
    assert_eq!(user.fields[0].name, "userId");
    assert_eq!(user.fields[1].name, "name");
}

#[test]
fn test_serde_rename_variant() {
    let code = r#"
        #[derive(Serialize)]
        pub enum Status {
            #[serde(rename = "ACTIVE")]
            Active,
            #[serde(rename = "INACTIVE")]
            Inactive,
        }
    "#;

    let (_, enums) = parse_types(code, &test_path()).unwrap();
    assert_eq!(enums.len(), 1);

    let status = &enums[0];
    assert_eq!(status.variants[0].name, "ACTIVE");
    assert_eq!(status.variants[1].name, "INACTIVE");
}

#[test]
fn test_ignore_non_serializable() {
    let code = r#"
        pub struct NotExported {
            pub id: i32,
        }

        #[derive(Debug)]
        pub struct AlsoNotExported {
            pub name: String,
        }

        #[derive(Serialize)]
        pub struct Exported {
            pub data: String,
        }
    "#;

    let (structs, _) = parse_types(code, &test_path()).unwrap();
    assert_eq!(structs.len(), 1);
    assert_eq!(structs[0].name, "Exported");
}

#[test]
fn test_parse_types_in_mod() {
    let code = r#"
        mod types {
            #[derive(Serialize)]
            pub struct InnerType {
                pub value: i32,
            }

            #[derive(Deserialize)]
            pub enum InnerEnum {
                A,
                B,
            }
        }
    "#;

    let (structs, enums) = parse_types(code, &test_path()).unwrap();
    assert_eq!(structs.len(), 1);
    assert_eq!(enums.len(), 1);
    assert_eq!(structs[0].name, "InnerType");
    assert_eq!(enums[0].name, "InnerEnum");
}

#[test]
fn test_deserialize_also_works() {
    let code = r#"
        #[derive(Deserialize)]
        pub struct Request {
            pub data: String,
        }
    "#;

    let (structs, _) = parse_types(code, &test_path()).unwrap();
    assert_eq!(structs.len(), 1);
    assert_eq!(structs[0].name, "Request");
}

#[test]
fn type_parser_test_source_file_is_set() {
    let code = r#"
        #[derive(Serialize)]
        pub struct Test {
            pub value: i32,
        }
    "#;

    let path = "src/types.rs".to_string();
    let (structs, _) = parse_types(code, &path).unwrap();
    assert_eq!(structs.len(), 1);
    assert_eq!(structs[0].source_file, path);
}

#[test]
fn test_complex_field_types() {
    let code = r#"
        #[derive(Serialize)]
        pub struct Complex {
            pub items: Vec<Item>,
            pub optional: Option<String>,
            pub map: HashMap<String, i32>,
            pub nested: Vec<Option<User>>,
        }
    "#;

    let (structs, _) = parse_types(code, &test_path()).unwrap();
    assert_eq!(structs.len(), 1);
    assert_eq!(structs[0].fields.len(), 4);

    match &structs[0].fields[0].ty {
        RustType::Vec(_) => {}
        other => panic!("Expected Vec, got {:?}", other),
    }

    match &structs[0].fields[1].ty {
        RustType::Option(_) => {}
        other => panic!("Expected Option, got {:?}", other),
    }

    match &structs[0].fields[2].ty {
        RustType::HashMap { .. } => {}
        other => panic!("Expected HashMap, got {:?}", other),
    }
}

#[test]
fn test_parse_expanded_code_with_serde_attrs() {
    let code = r#"
        pub mod types {
            pub struct AuthResponse {
                #[serde(rename = "accessToken")]
                pub access_token: ::std::string::String,
                #[serde(rename = "refreshToken")]
                pub refresh_token: ::std::string::String,
            }
        }
    "#;
    
    let (structs, _) = parse_types_expanded(code, &test_path()).unwrap();
    assert_eq!(structs.len(), 1, "Should find AuthResponse struct");
    assert_eq!(structs[0].name, "AuthResponse");
}

#[test]
fn test_parse_expanded_without_derive_but_with_serde_field_attrs() {
    // This simulates cargo expand output where derive is already expanded
    let code = r#"
        pub struct User {
            #[serde(rename = "userId")]
            pub user_id: i32,
            pub name: String,
        }
    "#;
    
    let (structs, _) = parse_types_expanded(code, &test_path()).unwrap();
    assert_eq!(structs.len(), 1, "Should find User struct via serde field attrs");
    assert_eq!(structs[0].name, "User");
}

#[test]
fn test_parse_types_regular_ignores_without_derive() {
    // Regular parse_types should NOT find structs without derive
    let code = r#"
        pub struct User {
            #[serde(rename = "userId")]
            pub user_id: i32,
        }
    "#;
    
    let (structs, _) = parse_types(code, &test_path()).unwrap();
    assert_eq!(structs.len(), 0, "Regular parse should not find struct without derive");
}
