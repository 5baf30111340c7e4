//! Edge cases of extraction, resolution and text handling

use tauri_ts_generator::models::{EnumRepresentation, RustType, VariantData};
use tauri_ts_generator::names::NameSet;
use tauri_ts_generator::parser::{
    parse_commands, parse_type, parse_type_with_context, parse_types, parse_types_expanded,
};
use tauri_ts_generator::paths::{contains_text, extension, file_name, split_file_path, split_type_path};
use tauri_ts_generator::reader::{read_file, read_type};
use tauri_ts_generator::resolver::{are_siblings, ModuleResolver, ResolutionResult};
use tauri_ts_generator::scanner::Scanner;
use tauri_ts_generator::syntax::{ItemSyntax, TypeSyntax};
use tauri_ts_generator::text::{chars_of, contains_char, decimal_string, join, str_eq};
use tauri_ts_generator::utils::{
    to_camel_case, to_kebab_case, to_screaming_kebab_case, to_screaming_snake_case, to_snake_case,
};

fn strings(items: &[&str]) -> Vec<String> {
    items.iter().map(|s| s.to_string()).collect()
}

fn found(file: &str) -> ResolutionResult {
    ResolutionResult::Found(file.to_string())
}

#[test]
fn enum_wire_shapes() {
    let code = r#"
        #[derive(Serialize)]
        pub enum Plain { A }

        #[derive(Serialize)]
        #[serde(tag = "type")]
        pub enum Internal { A }

        #[derive(Serialize)]
        #[serde(tag = "t", content = "c")]
        pub enum Adjacent { A }

        #[derive(Serialize)]
        #[serde(untagged)]
        pub enum Untagged { A }

        #[derive(Serialize)]
        #[serde(tag = "t")]
        #[serde(untagged, content = "c")]
        pub enum UntaggedWins { A }

        #[derive(Serialize)]
        #[serde(content = "c")]
        pub enum ContentAlone { A }

        #[derive(Serialize)]
        #[serde(tag = "first", tag = "second")]
        pub enum LastTagWins { A }
    "#;
    let (_, enums) = parse_types(code, "test.rs").unwrap();
    assert_eq!(enums.len(), 7);
    assert!(matches!(enums[0].representation, EnumRepresentation::External));
    match &enums[1].representation {
        EnumRepresentation::Internal { tag } => assert_eq!(tag, "type"),
        other => panic!("Expected Internal, got {:?}", other),
    }
    match &enums[2].representation {
        EnumRepresentation::Adjacent { tag, content } => {
            assert_eq!(tag, "t");
            assert_eq!(content, "c");
        }
        other => panic!("Expected Adjacent, got {:?}", other),
    }
    assert!(matches!(enums[3].representation, EnumRepresentation::Untagged));
    assert!(matches!(enums[4].representation, EnumRepresentation::Untagged));
    assert!(matches!(enums[5].representation, EnumRepresentation::External));
    match &enums[6].representation {
        EnumRepresentation::Internal { tag } => assert_eq!(tag, "second"),
        other => panic!("Expected Internal, got {:?}", other),
    }
}

#[test]
fn rename_all_applies_to_variants_only() {
    let code = r#"
        #[derive(Serialize)]
        #[serde(rename_all = "snake_case")]
        pub enum Event {
            UserCreated,
            #[serde(rename = "gone")]
            UserDeleted,
            WithFields { FirstName: String, #[serde(rename = "last")] LastName: String },
        }

        #[derive(Serialize)]
        #[serde(rename_all = "camelCase")]
        pub struct Person {
            pub first_name: String,
        }
    "#;
    let (structs, enums) = parse_types(code, "test.rs").unwrap();
    let names: Vec<&str> = enums[0].variants.iter().map(|v| v.name.as_str()).collect();
    assert_eq!(names, vec!["user_created", "gone", "with_fields"]);
    match &enums[0].variants[2].data {
        VariantData::Struct(fields) => {
            assert_eq!(fields[0].name, "FirstName");
            assert_eq!(fields[1].name, "last");
        }
        other => panic!("Expected Struct, got {:?}", other),
    }
    assert_eq!(structs[0].fields[0].name, "first_name");
}

#[test]
fn first_rename_wins_and_only_strings_count() {
    let code = r#"
        #[derive(Serialize)]
        pub struct Item {
            #[serde(default, rename = "first")]
            #[serde(rename = "second")]
            pub a: i32,
            #[serde(rename = 5, rename = "text")]
            pub b: i32,
            #[serde(rename(serialize = "x"))]
            pub c: i32,
            #[doc = "rename"]
            pub d: i32,
        }
    "#;
    let (structs, _) = parse_types(code, "test.rs").unwrap();
    let names: Vec<&str> = structs[0].fields.iter().map(|f| f.name.as_str()).collect();
    assert_eq!(names, vec!["first", "text", "c", "d"]);
}

#[test]
fn generics_keep_type_parameters_only() {
    let code = r#"
        #[derive(Serialize)]
        pub struct Holder<'a, T, const N: usize, U> {
            pub first: T,
            pub second: Vec<U>,
            pub third: N,
            pub text: &'a str,
        }
    "#;
    let (structs, _) = parse_types(code, "test.rs").unwrap();
    assert_eq!(structs[0].generics, vec!["T", "U"]);
    assert!(matches!(&structs[0].fields[0].ty, RustType::Generic(n) if n == "T"));
    match &structs[0].fields[1].ty {
        RustType::Vec(inner) => assert!(matches!(inner.as_ref(), RustType::Generic(n) if n == "U")),
        other => panic!("Expected Vec, got {:?}", other),
    }
    assert!(matches!(&structs[0].fields[2].ty, RustType::Custom(n) if n == "N"));
    assert!(matches!(&structs[0].fields[3].ty, RustType::Primitive(n) if n == "String"));
}

#[test]
fn tuple_struct_fields_are_numbered_in_decimal() {
    let code = "#[derive(Serialize)] pub struct Wide(u8, u8, u8, u8, u8, u8, u8, u8, u8, u8, #[serde(rename = \"x\")] u8);";
    let (structs, _) = parse_types(code, "test.rs").unwrap();
    let names: Vec<&str> = structs[0].fields.iter().map(|f| f.name.as_str()).collect();
    assert_eq!(
        names,
        vec![
            "field0", "field1", "field2", "field3", "field4", "field5", "field6", "field7",
            "field8", "field9", "field10"
        ]
    );
}

#[test]
fn qualified_derive_paths_count() {
    let code = r#"
        #[derive(Debug, serde::Serialize)]
        pub struct A;
        #[derive(::serde::Deserialize)]
        pub struct B;
        #[derive(Serialize<T>)]
        pub struct C;
        #[derive(Serializer)]
        pub struct D;
        #[serde(Serialize)]
        pub struct E;
        #[derive = "Serialize"]
        pub struct F;
    "#;
    let (structs, _) = parse_types(code, "test.rs").unwrap();
    let names: Vec<&str> = structs.iter().map(|s| s.name.as_str()).collect();
    assert_eq!(names, vec!["A", "B", "C"]);
}

#[test]
fn expanded_mode_reads_impl_blocks() {
    let code = r#"
        pub struct ByConst { pub a: i32 }
        pub struct ByImpl { pub a: i32 }
        pub enum ByMod { A }
        pub struct ByDeepConst { pub a: i32 }
        pub struct NotSerializable { pub a: i32 }
        pub enum ByVariantAttr { #[serde(rename = "a")] A }
        pub enum ByFieldAttr { A(#[serde(skip)] i32) }
        pub struct TupleAttr(#[serde(skip)] i32);

        const _: () = {
            impl serde::Serialize for ByConst {}
            fn helper() {
                impl Serialize for ByDeepConst {}
            }
        };
        impl<'de> Deserialize<'de> for ByImpl {}
        impl Display for NotSerializable {}
        impl NotSerializable {}
        mod inner {
            mod deeper {
                impl Serialize for super::super::ByMod {}
            }
        }
    "#;
    let (structs, enums) = parse_types_expanded(code, "test.rs").unwrap();
    let struct_names: Vec<&str> = structs.iter().map(|s| s.name.as_str()).collect();
    let enum_names: Vec<&str> = enums.iter().map(|s| s.name.as_str()).collect();
    assert_eq!(struct_names, vec!["ByConst", "ByImpl", "TupleAttr"]);
    assert_eq!(enum_names, vec!["ByMod", "ByVariantAttr", "ByFieldAttr"]);

    let (structs, enums) = parse_types(code, "test.rs").unwrap();
    assert!(structs.is_empty());
    assert!(enums.is_empty());
}

#[test]
fn expanded_mode_reads_attributes_of_positional_fields() {
    let code = "pub struct Wrapper(#[serde(rename = \"inner\")] pub i32); pub struct Plain(pub i32); pub struct Unit;";
    let (structs, _) = parse_types_expanded(code, "test.rs").unwrap();
    let names: Vec<&str> = structs.iter().map(|s| s.name.as_str()).collect();
    assert_eq!(names, vec!["Wrapper"]);
    assert_eq!(structs[0].fields[0].name, "field0");
    assert!(parse_types(code, "test.rs").unwrap().0.is_empty());
}

#[test]
fn a_file_that_declares_a_name_twice_counts_once() {
    let twice = "#[cfg(unix)] pub struct User; #[cfg(windows)] pub enum User { A }";
    let mut resolver = ModuleResolver::new();
    resolver.parse_file("src/x/a.rs", twice, "src").unwrap();
    resolver.parse_file("src/cmd.rs", "", "src").unwrap();
    assert_eq!(resolver.resolve_type("User", "src/cmd.rs"), found("src/x/a.rs"));

    resolver.parse_file("src/y/b.rs", "pub struct User;", "src").unwrap();
    resolver.parse_file("src/x/c.rs", "", "src").unwrap();
    assert_eq!(
        resolver.resolve_type("User", "src/cmd.rs"),
        ResolutionResult::Ambiguous(strings(&["src/x/a.rs", "src/y/b.rs"]))
    );
    assert_eq!(resolver.resolve_type("User", "src/x/c.rs"), found("src/x/a.rs"));
}

#[test]
fn invalid_source_is_an_error() {
    let broken = "pub struct {{{";
    assert!(parse_types(broken, "test.rs").is_err());
    assert!(parse_types_expanded(broken, "test.rs").is_err());
    assert!(parse_commands(broken, "test.rs").is_err());
    assert!(read_file(broken).is_err());
    assert!(read_type("Vec<").is_err());
    assert!(!read_file(broken).unwrap_err().message.is_empty());

    let mut resolver = ModuleResolver::new();
    resolver.parse_file("src/a.rs", "struct User;", "src").unwrap();
    assert!(resolver.parse_file("src/b.rs", broken, "src").is_err());
    assert_eq!(resolver.resolve_type("User", "src/a.rs"), found("src/a.rs"));
    assert_eq!(resolver.resolve_type("User", "src/b.rs"), ResolutionResult::NotFound);
}

#[test]
fn empty_source_has_nothing() {
    let (structs, enums) = parse_types("", "test.rs").unwrap();
    assert!(structs.is_empty() && enums.is_empty());
    assert!(parse_commands("", "test.rs").unwrap().is_empty());
    assert!(read_file("\u{feff}#!/usr/bin/env run\n").unwrap().items.is_empty());
}

#[test]
fn commands_in_impl_blocks_and_modules() {
    let code = r#"
        struct Api;
        impl Api {
            #[tauri::command]
            fn method(&self, id: i32, (a, b): (i32, i32), _: u8, window: tauri::Window) -> () {}
            fn helper() {}
            const LIMIT: u32 = 1;
        }
        mod outer {
            #[command]
            fn in_module(handle: AppHandle, view: Webview, w: WebviewWindow, s: State<'_, Db>, x: &str) {}
            mod deeper {
                #[tauri::command]
                fn too_deep() {}
            }
            impl X {
                #[tauri::command]
                fn in_impl_in_module() {}
            }
        }
        #[tauri::commands]
        fn wrong_marker() {}
        #[tauri::command()]
        fn list_marker() {}
        #[::tauri::command]
        fn rooted_marker() {}
        #[other::command]
        fn other_marker() {}
    "#;
    let commands = parse_commands(code, "test.rs").unwrap();
    let names: Vec<&str> = commands.iter().map(|c| c.name.as_str()).collect();
    assert_eq!(names, vec!["method", "in_module", "rooted_marker"]);
    let args: Vec<&str> = commands[0].args.iter().map(|a| a.name.as_str()).collect();
    assert_eq!(args, vec!["id"]);
    assert!(commands[0].return_type.is_none());
    let args: Vec<&str> = commands[1].args.iter().map(|a| a.name.as_str()).collect();
    assert_eq!(args, vec!["x"]);
    assert!(matches!(&commands[1].args[0].ty, RustType::Primitive(n) if n == "String"));
}

#[test]
fn unclassified_types() {
    let parse = |s: &str| parse_type(&read_type(s).unwrap());
    assert!(matches!(parse("Vec"), RustType::Unknown(d) if d == "Vec<?>"));
    assert!(matches!(parse("Vec<'a>"), RustType::Unknown(d) if d == "Vec<?>"));
    assert!(matches!(parse("Option"), RustType::Unknown(d) if d == "Option<?>"));
    assert!(matches!(parse("Result<>"), RustType::Unknown(d) if d == "Result<?>"));
    assert!(matches!(parse("HashMap<String>"), RustType::Unknown(d) if d == "HashMap<?, ?>"));
    assert!(matches!(parse("BTreeMap<'a, T>"), RustType::Unknown(d) if d == "HashMap<?, ?>"));
    assert!(matches!(parse("fn(i32) -> i32"), RustType::Unknown(d) if d.contains("BareFn")));
    assert!(matches!(parse("[u8; 4]"), RustType::Unknown(d) if d.contains("Array")));
    assert!(matches!(parse("std::collections::HashMap<u8, bool>"), RustType::HashMap { .. }));
    assert!(matches!(parse("Box<User>"), RustType::Custom(n) if n == "Box"));
    assert!(matches!(parse("&mut [Item]"), RustType::Vec(_)));
    assert!(matches!(parse("(i32,)"), RustType::Tuple(t) if t.len() == 1));
    assert!(matches!(parse("char"), RustType::Primitive(n) if n == "String"));
    assert!(matches!(parse("Bytes"), RustType::Primitive(n) if n == "Bytes"));
}

#[test]
fn generic_parameters_shadow_known_names() {
    let mut generics = NameSet::new();
    assert!(generics.insert("String".to_string()));
    assert!(!generics.insert("String".to_string()));
    assert!(generics.insert("Vec".to_string()));
    assert!(generics.contains("Vec"));
    assert!(!generics.contains("T"));
    let parse = |s: &str| parse_type_with_context(&read_type(s).unwrap(), &generics);
    assert!(matches!(parse("String"), RustType::Generic(n) if n == "String"));
    assert!(matches!(parse("Vec<i32>"), RustType::Generic(n) if n == "Vec"));
    assert!(matches!(parse("T"), RustType::Custom(n) if n == "T"));
}

#[test]
fn syntax_tree_of_a_file() {
    let file = read_file("use a::{b, c::*}; mod m; mod n { struct S; } static X: u8 = 0; const C: u8 = 1;")
        .unwrap();
    assert_eq!(file.items.len(), 5);
    assert!(matches!(&file.items[0], ItemSyntax::Use(_)));
    assert!(matches!(&file.items[1], ItemSyntax::Mod(items) if items.is_empty()));
    assert!(matches!(&file.items[2], ItemSyntax::Mod(items) if items.len() == 1));
    assert!(matches!(&file.items[3], ItemSyntax::Other));
    assert!(matches!(&file.items[4], ItemSyntax::Const(stmts) if stmts.is_empty()));
    match read_type("a::b::Map<K, 'x, V>").unwrap() {
        TypeSyntax::Path { name, args } => {
            assert_eq!(name, "Map");
            assert_eq!(args.len(), 3);
            assert!(args[0].is_some() && args[1].is_none() && args[2].is_some());
        }
        other => panic!("Expected Path, got {:?}", other),
    }
}

#[test]
fn resolver_imports_and_wildcards() {
    let mut resolver = ModuleResolver::new();
    resolver.parse_file("src/models/user.rs", "pub struct User; pub enum Role { A }", "src").unwrap();
    resolver.parse_file("src/models/item.rs", "pub struct Item; pub struct User;", "src").unwrap();
    resolver.parse_file("src/models/mod.rs", "pub struct Root;", "src").unwrap();
    resolver
        .parse_file(
            "src/api.rs",
            "use crate::models::item::*; use crate::models::user::*; use crate::models; use crate::models::{self, user::Role as Level, Root}; use missing::Gone;",
            "src",
        )
        .unwrap();
    let from = "src/api.rs";
    // wildcard imports are searched in their order
    assert_eq!(resolver.resolve_type("User", from), found("src/models/item.rs"));
    assert_eq!(resolver.resolve_type("Item", from), found("src/models/item.rs"));
    // a renamed import resolves under its alias
    assert_eq!(resolver.resolve_type("Level", from), found("src/models/user.rs"));
    assert_eq!(resolver.resolve_type("Root", from), found("src/models/mod.rs"));
    // an import that leads nowhere does not fall back to a search by name
    assert_eq!(resolver.resolve_type("Gone", from), ResolutionResult::NotFound);
    // an imported module as the head of a path
    assert_eq!(resolver.resolve_type("models::Root", from), found("src/models/mod.rs"));
    assert_eq!(resolver.resolve_type("models::user::Role", from), found("src/models/user.rs"));
    // `self` in a group is kept as a name of its own
    assert_eq!(resolver.resolve_type("self", from), ResolutionResult::NotFound);
    // a name found by the search of the whole program
    assert_eq!(resolver.resolve_type("Role", from), found("src/models/user.rs"));
}

#[test]
fn resolver_relative_paths() {
    let mut resolver = ModuleResolver::new();
    resolver.parse_file("src/lib.rs", "struct Top;", "src").unwrap();
    resolver.parse_file("src/a/mod.rs", "struct A;", "src").unwrap();
    resolver.parse_file("src/a/b.rs", "struct B;", "src").unwrap();
    let from = "src/a/b.rs";
    assert_eq!(resolver.resolve_type("self::B", from), found("src/a/b.rs"));
    assert_eq!(resolver.resolve_type("super::A", from), found("src/a/mod.rs"));
    assert_eq!(resolver.resolve_type("super::super::Top", from), found("src/lib.rs"));
    assert_eq!(resolver.resolve_type("super::super::super::Top", from), ResolutionResult::NotFound);
    assert_eq!(resolver.resolve_type("crate::Top", from), found("src/lib.rs"));
    assert_eq!(resolver.resolve_type("crate::a::b::B", from), found("src/a/b.rs"));
    assert_eq!(resolver.resolve_type("crate::a::super::Top", from), found("src/lib.rs"));
    assert_eq!(resolver.resolve_type("::crate::a::A::", from), found("src/a/mod.rs"));
    assert_eq!(resolver.resolve_type("a::b::B", "src/lib.rs"), found("src/a/b.rs"));
    assert_eq!(resolver.resolve_type("crate", from), ResolutionResult::NotFound);
    assert_eq!(resolver.resolve_type("", from), ResolutionResult::NotFound);
    assert_eq!(resolver.resolve_type("::", from), ResolutionResult::NotFound);
    assert_eq!(resolver.resolve_type("B", "src/unknown.rs"), ResolutionResult::NotFound);
    assert_eq!(resolver.resolve_type("Nothing", from), ResolutionResult::NotFound);
}

#[test]
fn module_of_a_file() {
    let resolver = ModuleResolver::new();
    let module = |path: &str, base: &str| resolver.path_to_module(path, base);
    assert_eq!(module("src/lib.rs", "src"), strings(&["crate"]));
    assert_eq!(module("src/main.rs", "src"), strings(&["crate"]));
    assert_eq!(module("src/a/mod.rs", "src"), strings(&["crate", "a"]));
    assert_eq!(module("src/a/b.rs", "src/"), strings(&["crate", "a", "b"]));
    assert_eq!(module("src//a/./b.rs.rs", "src"), strings(&["crate", "a", "b"]));
    assert_eq!(module("other/a.rs", "src"), strings(&["crate", "other", "a"]));
    assert_eq!(module("/abs/src/a.rs", "/abs/src"), strings(&["crate", "a"]));
    assert_eq!(module("/abs/src/a.rs", "abs/src"), strings(&["crate", "abs", "src", "a"]));
    assert_eq!(module("src/../a.rs", "src"), strings(&["crate", "a"]));
    assert_eq!(module("src/a.txt", ""), strings(&["crate", "src", "a.txt"]));
}

#[test]
fn sibling_modules() {
    assert!(are_siblings(&strings(&["crate", "a"]), &strings(&["crate", "b"])));
    assert!(are_siblings(&strings(&["crate"]), &strings(&["other"])));
    assert!(are_siblings(&strings(&[]), &strings(&[])));
    assert!(!are_siblings(&strings(&["crate", "a"]), &strings(&["crate", "a", "b"])));
    assert!(!are_siblings(&strings(&["crate", "x", "a"]), &strings(&["crate", "y", "a"])));
}

#[test]
fn paths_as_text() {
    assert_eq!(split_type_path("a::b::C"), strings(&["a", "b", "C"]));
    assert_eq!(split_type_path("::a::::b:"), strings(&["a", "b:"]));
    assert_eq!(split_type_path("a:::b"), strings(&["a", ":b"]));
    assert!(split_type_path("").is_empty());
    assert_eq!(split_file_path("/a//b/./c/"), strings(&["/", "a", "b", "c"]));
    assert_eq!(split_file_path("./a/../b"), strings(&[".", "a", "..", "b"]));
    assert_eq!(file_name("a/b.rs/"), Some("b.rs".to_string()));
    assert_eq!(file_name("a/.."), None);
    assert_eq!(file_name("/"), None);
    assert_eq!(file_name(""), None);
    assert_eq!(extension("a/b.tar.gz"), Some("gz".to_string()));
    assert_eq!(extension("a/.hidden"), None);
    assert_eq!(extension("a/.hidden.rs"), Some("rs".to_string()));
    assert_eq!(extension("a/name."), Some("".to_string()));
    assert_eq!(extension("a.d/name"), None);
    assert!(contains_text("src/tests/a.rs", "tests"));
    assert!(contains_text("abc", ""));
    assert!(contains_text("", ""));
    assert!(!contains_text("abc", "abcd"));
    assert!(!contains_text("ababab", "abb"));
    assert!(contains_text("aab", "ab"));
}

#[test]
fn scanner_patterns() {
    let scanner = Scanner::new("src".to_string(), strings(&["gen", "build.rs"]));
    assert!(scanner.is_excluded("src/generated/a.rs"));
    assert!(scanner.is_excluded("src/build.rs"));
    assert!(!scanner.is_excluded("src/main.rs"));
    assert!(scanner.is_rust_file("src/.hidden.rs"));
    assert!(!scanner.is_rust_file("src/rs"));
    assert!(scanner.is_rust_file("src/a.rs/"));
    let everything = Scanner::new("src".to_string(), strings(&[""]));
    assert!(everything.is_excluded("src/main.rs"));
}

#[test]
fn case_conversions() {
    assert_eq!(to_snake_case("UserProfile"), "user_profile");
    assert_eq!(to_snake_case("HTTPServer"), "h_t_t_p_server");
    assert_eq!(to_snake_case("already_snake"), "already_snake");
    assert_eq!(to_snake_case(""), "");
    assert_eq!(to_snake_case("aÉcole"), "a_École");
    assert_eq!(to_kebab_case("UserProfile_X"), "user-profile--x");
    assert_eq!(to_screaming_snake_case("UserProfile"), "USER_PROFILE");
    assert_eq!(to_screaming_kebab_case("UserProfile"), "USER-PROFILE");
    assert_eq!(to_screaming_snake_case("straße"), "STRASSE");
    assert_eq!(to_camel_case("__a__b_"), "AB");
    assert_eq!(to_camel_case("Übung_ä"), "Übungä");
    assert_eq!(to_camel_case(""), "");
}

#[test]
fn text_helpers() {
    assert!(str_eq("", ""));
    assert!(str_eq("häß", "häß"));
    assert!(!str_eq("a", "ab"));
    assert!(!str_eq("é", "e"));
    assert_eq!(chars_of("aé|"), vec!['a', 'é', '|']);
    assert!(contains_char("a | b", '|'));
    assert!(!contains_char("a b", '|'));
    assert_eq!(join(&strings(&[]), ", "), "");
    assert_eq!(join(&strings(&["a"]), ", "), "a");
    assert_eq!(join(&strings(&["a", "", "c"]), ", "), "a, , c");
    assert_eq!(decimal_string(0), "0");
    assert_eq!(decimal_string(7), "7");
    assert_eq!(decimal_string(10), "10");
    assert_eq!(decimal_string(4096), "4096");
}
