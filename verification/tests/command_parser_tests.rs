use tauri_ts_generator::models::RustType;
use tauri_ts_generator::parser::parse_commands;

fn test_path() -> String {
    "test.rs".to_string()
}

#[test]
fn test_parse_simple_command() {
    let code = r#"
        #[tauri::command]
        fn greet() {
            println!("Hello!");
        }
    "#;

    let commands = parse_commands(code, &test_path()).unwrap();
    assert_eq!(commands.len(), 1);
    assert_eq!(commands[0].name, "greet");
    assert!(commands[0].args.is_empty());
    assert!(commands[0].return_type.is_none());
}

#[test]
fn test_parse_command_with_short_attribute() {
    let code = r#"
        #[command]
        fn greet() {}
    "#;

    let commands = parse_commands(code, &test_path()).unwrap();
    assert_eq!(commands.len(), 1);
    assert_eq!(commands[0].name, "greet");
}

#[test]
fn test_parse_command_with_args() {
    let code = r#"
        #[tauri::command]
        fn get_user(id: i32, name: String) -> User {
            unimplemented!()
        }
    "#;

    let commands = parse_commands(code, &test_path()).unwrap();
    assert_eq!(commands.len(), 1);
    assert_eq!(commands[0].name, "get_user");
    assert_eq!(commands[0].args.len(), 2);
    assert_eq!(commands[0].args[0].name, "id");
    assert_eq!(commands[0].args[1].name, "name");
}

#[test]
fn test_parse_command_with_return_type() {
    let code = r#"
        #[tauri::command]
        fn get_user(id: i32) -> Result<User, String> {
            unimplemented!()
        }
    "#;

    let commands = parse_commands(code, &test_path()).unwrap();
    assert_eq!(commands.len(), 1);
    assert!(commands[0].return_type.is_some());

    match &commands[0].return_type {
        Some(RustType::Result(inner)) => match inner.as_ref() {
            RustType::Custom(name) => assert_eq!(name, "User"),
            other => panic!("Expected Custom, got {:?}", other),
        },
        other => panic!("Expected Result, got {:?}", other),
    }
}

#[test]
fn test_parse_async_command() {
    let code = r#"
        #[tauri::command]
        async fn fetch_data() -> Result<Vec<Item>, String> {
            unimplemented!()
        }
    "#;

    let commands = parse_commands(code, &test_path()).unwrap();
    assert_eq!(commands.len(), 1);
    assert_eq!(commands[0].name, "fetch_data");
    assert!(commands[0].return_type.is_some());
}

#[test]
fn test_skip_tauri_special_types() {
    let code = r#"
        #[tauri::command]
        fn with_state(state: State<AppState>, window: Window, id: i32) {
            unimplemented!()
        }
    "#;

    let commands = parse_commands(code, &test_path()).unwrap();
    assert_eq!(commands.len(), 1);
    // Only 'id' should be included, State and Window should be skipped
    assert_eq!(commands[0].args.len(), 1);
    assert_eq!(commands[0].args[0].name, "id");
}

#[test]
fn test_skip_app_handle() {
    let code = r#"
        #[tauri::command]
        fn with_app(app: AppHandle, data: String) {
            unimplemented!()
        }
    "#;

    let commands = parse_commands(code, &test_path()).unwrap();
    assert_eq!(commands.len(), 1);
    assert_eq!(commands[0].args.len(), 1);
    assert_eq!(commands[0].args[0].name, "data");
}

#[test]
fn test_parse_command_in_mod() {
    let code = r#"
        mod commands {
            #[tauri::command]
            fn inner_command(id: i32) -> String {
                unimplemented!()
            }
        }
    "#;

    let commands = parse_commands(code, &test_path()).unwrap();
    assert_eq!(commands.len(), 1);
    assert_eq!(commands[0].name, "inner_command");
}

#[test]
fn test_parse_multiple_commands() {
    let code = r#"
        #[tauri::command]
        fn command_one() {}

        #[tauri::command]
        fn command_two(id: i32) -> String {
            unimplemented!()
        }

        #[tauri::command]
        async fn command_three() -> Result<(), String> {
            Ok(())
        }
    "#;

    let commands = parse_commands(code, &test_path()).unwrap();
    assert_eq!(commands.len(), 3);
    assert_eq!(commands[0].name, "command_one");
    assert_eq!(commands[1].name, "command_two");
    assert_eq!(commands[2].name, "command_three");
}

#[test]
fn test_ignore_non_command_functions() {
    let code = r#"
        fn helper_function() {}

        pub fn another_helper(x: i32) -> i32 {
            x * 2
        }

        #[tauri::command]
        fn actual_command() {}
    "#;

    let commands = parse_commands(code, &test_path()).unwrap();
    assert_eq!(commands.len(), 1);
    assert_eq!(commands[0].name, "actual_command");
}

#[test]
fn test_command_with_complex_types() {
    let code = r#"
        #[tauri::command]
        fn complex(
            items: Vec<Item>,
            optional: Option<String>,
            map: HashMap<String, i32>
        ) -> Result<Vec<Response>, String> {
            unimplemented!()
        }
    "#;

    let commands = parse_commands(code, &test_path()).unwrap();
    assert_eq!(commands.len(), 1);
    assert_eq!(commands[0].args.len(), 3);

    // Check items arg
    match &commands[0].args[0].ty {
        RustType::Vec(_) => {}
        other => panic!("Expected Vec, got {:?}", other),
    }

    // Check optional arg
    match &commands[0].args[1].ty {
        RustType::Option(_) => {}
        other => panic!("Expected Option, got {:?}", other),
    }

    // Check map arg
    match &commands[0].args[2].ty {
        RustType::HashMap { .. } => {}
        other => panic!("Expected HashMap, got {:?}", other),
    }
}

#[test]
fn test_void_return_is_none() {
    let code = r#"
        #[tauri::command]
        fn void_command() {
        }
    "#;

    let commands = parse_commands(code, &test_path()).unwrap();
    assert_eq!(commands.len(), 1);
    assert!(commands[0].return_type.is_none());
}

#[test]
fn test_unit_return_is_none() {
    let code = r#"
        #[tauri::command]
        fn unit_command() -> () {
        }
    "#;

    let commands = parse_commands(code, &test_path()).unwrap();
    assert_eq!(commands.len(), 1);
    assert!(commands[0].return_type.is_none());
}

#[test]
fn command_parser_test_source_file_is_set() {
    let code = r#"
        #[tauri::command]
        fn my_command() {}
    "#;

    let path = "src/commands.rs".to_string();
    let commands = parse_commands(code, &path).unwrap();
    assert_eq!(commands.len(), 1);
    assert_eq!(commands[0].source_file, path);
}
