//! The rules of the library on concrete values

use tauri_ts_generator::config::NamingConfig;
use tauri_ts_generator::generator::declarations::{
    interface_declaration, promise_type, wrapper_function_name,
};
use tauri_ts_generator::generator::type_mapper::rust_to_typescript;
use tauri_ts_generator::generator::GeneratorContext;
use tauri_ts_generator::models::{RustEnum, RustStruct, RustType, TauriCommand};
use tauri_ts_generator::parser::records::apply_rename_all;
use tauri_ts_generator::parser::{parse_commands, parse_types};
use tauri_ts_generator::pipeline::{generate, SourceFile};
use tauri_ts_generator::reachability::reachable_types;
use tauri_ts_generator::resolver::{ModuleResolver, ResolutionResult};

fn plain_ctx() -> GeneratorContext {
    GeneratorContext::new(NamingConfig::default())
}

fn custom(name: &str) -> RustType {
    RustType::Custom(name.to_string())
}

fn primitive(name: &str) -> RustType {
    RustType::Primitive(name.to_string())
}

fn boxed(ty: RustType) -> Box<RustType> {
    Box::new(ty)
}

/// The names of the reachable types, in the order of discovery
fn reachable_names(
    commands: &Vec<TauriCommand>,
    structs: &Vec<RustStruct>,
    enums: &Vec<RustEnum>,
    resolver: &ModuleResolver,
) -> Vec<String> {
    reachable_types(commands, structs, enums, resolver)
        .iter()
        .map(|found| {
            if found.entry < structs.len() {
                structs[found.entry].name.clone()
            } else {
                enums[found.entry - structs.len()].name.clone()
            }
        })
        .collect()
}

#[test]
fn primitive_mapping_ignores_the_context() {
    let plain = plain_ctx();
    let mut decorated = GeneratorContext::new(NamingConfig {
        type_prefix: "I".to_string(),
        type_suffix: "Dto".to_string(),
        function_prefix: "api".to_string(),
        function_suffix: "Cmd".to_string(),
    });
    decorated.register_type("String");
    decorated.register_type("i32");
    for name in ["String", "i32", "u64", "f64", "bool", "DateTime", "Duration", "Value", "Bytes", "Nope"] {
        assert_eq!(
            rust_to_typescript(&primitive(name), &plain),
            rust_to_typescript(&primitive(name), &decorated)
        );
    }
    assert_eq!(rust_to_typescript(&primitive("Nope"), &plain), "unknown");
}

#[test]
fn nested_optionals_are_one_nullable_union() {
    let ctx = plain_ctx();
    let ty = RustType::Option(boxed(RustType::Option(boxed(custom("User")))));
    assert_eq!(rust_to_typescript(&ty, &ctx), "User | null");
    let single = RustType::Option(boxed(custom("User")));
    assert_eq!(rust_to_typescript(&ty, &ctx), rust_to_typescript(&single, &ctx));

    let strings = RustType::Option(boxed(RustType::Option(boxed(primitive("String")))));
    assert_eq!(rust_to_typescript(&strings, &ctx), "string | null");
    let triple = RustType::Option(boxed(RustType::Option(boxed(RustType::Option(boxed(
        primitive("i32"),
    ))))));
    assert_eq!(rust_to_typescript(&triple, &ctx), "number | null");
    let through_result = RustType::Option(boxed(RustType::Result(boxed(RustType::Option(
        boxed(custom("User")),
    )))));
    assert_eq!(rust_to_typescript(&through_result, &ctx), "User | null");
    let in_list = RustType::Option(boxed(RustType::Vec(boxed(RustType::Option(boxed(
        custom("User"),
    ))))));
    assert_eq!(rust_to_typescript(&in_list, &ctx), "(User | null)[] | null");
}

#[test]
fn list_parenthesizes_exactly_unions() {
    let ctx = plain_ctx();
    let union = RustType::Vec(boxed(RustType::Option(boxed(custom("User")))));
    assert_eq!(rust_to_typescript(&union, &ctx), "(User | null)[]");
    let plain = RustType::Vec(boxed(custom("User")));
    assert_eq!(rust_to_typescript(&plain, &ctx), "User[]");
    let nested = RustType::Vec(boxed(RustType::Vec(boxed(RustType::Option(boxed(primitive("i32")))))));
    assert_eq!(rust_to_typescript(&nested, &ctx), "((number | null)[])[]");
}

#[test]
fn map_keys_are_widened() {
    let ctx = plain_ctx();
    let map = |key: RustType| RustType::HashMap { key: boxed(key), value: boxed(primitive("i32")) };
    assert_eq!(rust_to_typescript(&map(primitive("bool")), &ctx), "Record<string, number>");
    assert_eq!(rust_to_typescript(&map(primitive("String")), &ctx), "Record<string, number>");
    assert_eq!(rust_to_typescript(&map(primitive("u32")), &ctx), "Record<number, number>");
    assert_eq!(rust_to_typescript(&map(custom("Status")), &ctx), "Record<Status, number>");
    assert_eq!(
        rust_to_typescript(&map(RustType::Generic("K".to_string())), &ctx),
        "Record<K, number>"
    );
    assert_eq!(
        rust_to_typescript(&map(RustType::Vec(boxed(primitive("String")))), &ctx),
        "Record<string, number>"
    );
    assert_eq!(
        rust_to_typescript(&map(RustType::Option(boxed(primitive("String")))), &ctx),
        "Record<string, number>"
    );
    assert_eq!(
        rust_to_typescript(&map(RustType::Tuple(vec![primitive("i32"), primitive("i32")])), &ctx),
        "Record<string, number>"
    );
    assert_eq!(rust_to_typescript(&map(RustType::Unit), &ctx), "Record<string, number>");
}

#[test]
fn unknown_types_map_to_unknown() {
    let ctx = plain_ctx();
    assert_eq!(rust_to_typescript(&RustType::Unknown("fn()".to_string()), &ctx), "unknown");
    let inside = RustType::Tuple(vec![RustType::Unknown("x".to_string()), RustType::Unit]);
    assert_eq!(rust_to_typescript(&inside, &ctx), "[unknown, void]");
}

#[test]
fn resolving_twice_gives_the_same_outcome() {
    let mut resolver = ModuleResolver::new();
    resolver.parse_file("src/a.rs", "struct User;", "src").unwrap();
    resolver.parse_file("src/b.rs", "struct User; struct Only;", "src").unwrap();
    resolver.parse_file("src/cmd.rs", "use crate::b::Only;", "src").unwrap();
    for reference in ["User", "Only", "crate::a::User", "super::b::Only", "Missing", ""] {
        let first = resolver.resolve_type(reference, "src/cmd.rs");
        let second = resolver.resolve_type(reference, "src/cmd.rs");
        assert_eq!(first, second);
    }
}

#[test]
fn ambiguity_lists_both_files_and_a_sibling_decides() {
    let mut resolver = ModuleResolver::new();
    resolver.parse_file("src/x/a.rs", "struct User;", "src").unwrap();
    resolver.parse_file("src/y/b.rs", "struct User;", "src").unwrap();
    resolver.parse_file("src/cmd.rs", "", "src").unwrap();
    resolver.parse_file("src/x/c.rs", "", "src").unwrap();

    match resolver.resolve_type("User", "src/cmd.rs") {
        ResolutionResult::Ambiguous(files) => {
            assert_eq!(files, vec!["src/x/a.rs".to_string(), "src/y/b.rs".to_string()]);
        }
        other => panic!("Expected Ambiguous, got {:?}", other),
    }
    assert_eq!(
        resolver.resolve_type("User", "src/x/c.rs"),
        ResolutionResult::Found("src/x/a.rs".to_string())
    );
}

#[test]
fn unreferenced_struct_is_absent_and_nested_ones_are_present() {
    let code = r#"
        #[derive(Serialize)]
        pub struct Unused { pub x: i32 }

        #[derive(Serialize)]
        pub struct C { pub value: i32 }

        #[derive(Serialize)]
        pub struct B { pub c: Option<C> }

        #[derive(Serialize)]
        pub struct A { pub b: Vec<B> }

        #[tauri::command]
        pub fn get_a() -> Result<A, String> { unimplemented!() }
    "#;
    let file = "src/lib.rs";
    let (structs, enums) = parse_types(code, file).unwrap();
    let commands = parse_commands(code, file).unwrap();
    let mut resolver = ModuleResolver::new();
    resolver.parse_file(file, code, "src").unwrap();

    let names = reachable_names(&commands, &structs, &enums, &resolver);
    assert_eq!(names, vec!["A".to_string(), "B".to_string(), "C".to_string()]);

    let sources = vec![SourceFile {
        path: file.to_string(),
        content: code.to_string(),
        expanded: false,
    }];
    let generated = generate(&sources, "src", NamingConfig::default(), "./types").unwrap();
    assert_eq!(
        generated.types,
        "export interface A { b: B[]; }\n\nexport interface B { c: C | null; }\n\nexport interface C { value: number; }\n"
    );
    assert!(!generated.types.contains("Unused"));
    assert!(generated.commands.contains("import type { A } from \"./types\";"));
    assert!(generated.commands.contains("export async function getA(): Promise<A> {"));
}

#[test]
fn reachability_follows_enums_and_stops_at_cycles() {
    let code = r#"
        #[derive(Serialize)]
        pub struct Node { pub next: Option<Box<Node>>, pub kind: Kind, pub again: Kind }

        #[derive(Serialize)]
        pub enum Kind { Leaf, Pair(Node, Extra), Named { extra: Extra } }

        #[derive(Serialize)]
        pub struct Extra { pub external: Foreign }

        #[derive(Serialize)]
        pub struct Orphan { pub node: Node }

        #[tauri::command]
        pub fn first(input: Kind) {}

        #[tauri::command]
        pub fn second() -> Node { unimplemented!() }
    "#;
    let file = "src/lib.rs";
    let (structs, enums) = parse_types(code, file).unwrap();
    let commands = parse_commands(code, file).unwrap();
    let mut resolver = ModuleResolver::new();
    resolver.parse_file(file, code, "src").unwrap();

    let names = reachable_names(&commands, &structs, &enums, &resolver);
    assert_eq!(names, vec!["Kind".to_string(), "Node".to_string(), "Extra".to_string()]);
}

#[test]
fn reachability_prefers_the_file_that_the_resolver_finds() {
    let types_a = "#[derive(Serialize)] pub struct User { pub a: i32 }";
    let types_b = "#[derive(Serialize)] pub struct User { pub b: i32 }";
    let cmd = "use crate::b::User;\n#[tauri::command] fn get() -> User { unimplemented!() }";
    let mut resolver = ModuleResolver::new();
    resolver.parse_file("src/a.rs", types_a, "src").unwrap();
    resolver.parse_file("src/b.rs", types_b, "src").unwrap();
    resolver.parse_file("src/cmd.rs", cmd, "src").unwrap();
    let mut structs = parse_types(types_a, "src/a.rs").unwrap().0;
    structs.extend(parse_types(types_b, "src/b.rs").unwrap().0);
    let enums = Vec::new();
    let commands = parse_commands(cmd, "src/cmd.rs").unwrap();

    let found = reachable_types(&commands, &structs, &enums, &resolver);
    assert_eq!(found.len(), 1);
    assert_eq!(found[0].entry, 1);
    assert_eq!(found[0].root, 0);
    assert_eq!(structs[found[0].entry].source_file, "src/b.rs");
}

#[test]
fn end_to_end_one_struct_one_command() {
    let code = r#"
        #[derive(Serialize, Deserialize)]
        pub struct User {
            pub id: i32,
            pub name: String,
        }

        #[tauri::command]
        pub fn get_user(id: i32) -> Result<User, String> {
            unimplemented!()
        }
    "#;
    let file = "src/commands.rs";
    let (structs, enums) = parse_types(code, file).unwrap();
    let commands = parse_commands(code, file).unwrap();
    let mut resolver = ModuleResolver::new();
    resolver.parse_file(file, code, "src").unwrap();

    let found = reachable_types(&commands, &structs, &enums, &resolver);
    assert_eq!(found.len(), 1);
    assert!(enums.is_empty());
    let mut ctx = plain_ctx();
    ctx.register_type(&structs[found[0].entry].name);

    assert_eq!(
        interface_declaration(&structs[found[0].entry], &ctx),
        "export interface User { id: number; name: string; }"
    );
    assert_eq!(commands.len(), 1);
    assert_eq!(promise_type(&commands[0], &ctx), "Promise<User>");
    assert_eq!(wrapper_function_name(&commands[0], &ctx), "getUser");
    assert_eq!(commands[0].args.len(), 1);
    assert_eq!(rust_to_typescript(&commands[0].args[0].ty, &ctx), "number");

    let sources = vec![SourceFile {
        path: file.to_string(),
        content: code.to_string(),
        expanded: false,
    }];
    let generated = generate(&sources, "src", NamingConfig::default(), "./types").unwrap();
    assert_eq!(generated.types, "export interface User { id: number; name: string; }\n");
    assert_eq!(generated.types.matches("export interface").count(), 1);
    assert_eq!(generated.commands.matches("export async function").count(), 1);
    assert!(generated
        .commands
        .contains("export async function getUser(id: number): Promise<User> {"));
    assert!(generated.warnings.is_empty());
}

#[test]
fn declarations_follow_the_naming() {
    let code = r#"
        #[derive(Serialize)]
        pub struct Pair<K, V> { pub key: K, pub values: Vec<Option<V>> }

        #[derive(Serialize)]
        pub struct Empty;

        #[tauri::command]
        pub fn save_pair(pair: Pair<String, i32>) {}
    "#;
    let (structs, _) = parse_types(code, "src/lib.rs").unwrap();
    let commands = parse_commands(code, "src/lib.rs").unwrap();
    let mut ctx = GeneratorContext::new(NamingConfig {
        type_prefix: "I".to_string(),
        type_suffix: "Dto".to_string(),
        function_prefix: "api_".to_string(),
        function_suffix: "Cmd".to_string(),
    });
    ctx.register_type("Pair");
    assert_eq!(
        interface_declaration(&structs[0], &ctx),
        "export interface IPairDto<K, V> { key: K; values: (V | null)[]; }"
    );
    assert_eq!(interface_declaration(&structs[1], &ctx), "export interface IEmptyDto { }");
    assert_eq!(promise_type(&commands[0], &ctx), "Promise<void>");
    assert_eq!(wrapper_function_name(&commands[0], &ctx), "api_savePairCmd");
    assert_eq!(rust_to_typescript(&commands[0].args[0].ty, &ctx), "IPairDto");
}

#[test]
fn rename_all_conversions() {
    let rule = |r: &str| Some(r.to_string());
    assert_eq!(apply_rename_all("field_a", &rule("camelCase")), Some("fieldA".to_string()));
    assert_eq!(
        apply_rename_all("FieldA", &rule("SCREAMING-KEBAB-CASE")),
        Some("FIELD-A".to_string())
    );
    assert_eq!(apply_rename_all("FieldA", &rule("lowercase")), Some("fielda".to_string()));
    assert_eq!(apply_rename_all("FieldA", &rule("UPPERCASE")), Some("FIELDA".to_string()));
    assert_eq!(apply_rename_all("FieldA", &rule("camelCase")), Some("fieldA".to_string()));
    assert_eq!(apply_rename_all("FieldA", &rule("snake_case")), Some("field_a".to_string()));
    assert_eq!(
        apply_rename_all("FieldA", &rule("SCREAMING_SNAKE_CASE")),
        Some("FIELD_A".to_string())
    );
    assert_eq!(apply_rename_all("FieldA", &rule("kebab-case")), Some("field-a".to_string()));
    assert_eq!(apply_rename_all("FieldA", &rule("PascalCase")), Some("FieldA".to_string()));
    assert_eq!(apply_rename_all("FieldA", &rule("no-such-rule")), Some("FieldA".to_string()));
    assert_eq!(apply_rename_all("FieldA", &None), None);
}
