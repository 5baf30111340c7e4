//! Whole runs on sources held in memory

use tauri_ts_generator::config::NamingConfig;
use tauri_ts_generator::pipeline::{generate, Generated, SourceFile};
use tauri_ts_generator::scanner::Scanner;

/// Runs the generation on the files that the scan would keep
fn run(files: &[(&str, &str)], naming: NamingConfig) -> Generated {
    let scanner = Scanner::new(
        "src".to_string(),
        vec!["tests".to_string(), "target".to_string()],
    );
    let sources: Vec<SourceFile> = files
        .iter()
        .filter(|(path, _)| scanner.is_rust_file(path) && !scanner.is_excluded(path))
        .map(|(path, content)| SourceFile {
            path: path.to_string(),
            content: content.to_string(),
            expanded: false,
        })
        .collect();
    generate(&sources, "src", naming, "./types").expect("Pipeline should succeed")
}

#[test]
fn test_full_pipeline_simple() {
    let files = [
        ("src/commands.rs", r#"
use serde::{Serialize, Deserialize};

#[derive(Serialize, Deserialize)]
pub struct User {
    pub id: i32,
    pub name: String,
}

#[tauri::command]
pub fn get_user(id: i32) -> Result<User, String> {
    unimplemented!()
}

#[tauri::command]
pub fn list_users() -> Vec<User> {
    vec![]
}
"#),
    ];
    let generated = run(&files, NamingConfig::default());
    let types_content = generated.types;
    let commands_content = generated.commands;
    assert!(types_content.contains("export interface User"));
    assert!(types_content.contains("id: number"));
    assert!(types_content.contains("name: string"));
    assert!(commands_content.contains("export async function getUser"));
    assert!(commands_content.contains("export async function listUsers"));
    assert!(commands_content.contains("import { invoke }"));
}

#[test]
fn test_pipeline_with_multiple_files() {
    let files = [
        ("src/types.rs", r#"
use serde::{Serialize, Deserialize};

#[derive(Serialize, Deserialize)]
pub struct User {
    pub id: i32,
    pub name: String,
}

#[derive(Serialize, Deserialize)]
pub struct Item {
    pub id: i32,
    pub title: String,
}
"#),
        ("src/commands.rs", r#"
use crate::types::{User, Item};

#[tauri::command]
pub fn get_user(id: i32) -> User {
    unimplemented!()
}

#[tauri::command]
pub fn get_item(id: i32) -> Item {
    unimplemented!()
}
"#),
    ];
    let generated = run(&files, NamingConfig::default());
    let types_content = generated.types;
    let commands_content = generated.commands;
    assert!(types_content.contains("export interface User"));
    assert!(types_content.contains("export interface Item"));
    assert!(commands_content.contains("export async function getUser"));
    assert!(commands_content.contains("export async function getItem"));
}

#[test]
fn test_pipeline_excludes_directories() {
    let files = [
        ("src/main.rs", r#"
use serde::Serialize;

#[derive(Serialize)]
pub struct User {
    pub id: i32,
}

#[tauri::command]
pub fn get_user(id: i32) -> User {
    unimplemented!()
}
"#),
        ("src/tests/test.rs", r#"
use serde::Serialize;

#[derive(Serialize)]
pub struct TestType {
    pub data: String,
}

#[tauri::command]
pub fn test_command() -> TestType {
    unimplemented!()
}
"#),
    ];
    let generated = run(&files, NamingConfig::default());
    let types_content = generated.types;
    let commands_content = generated.commands;
    assert!(types_content.contains("export interface User"));
    assert!(!types_content.contains("TestType"));
    assert!(commands_content.contains("export async function getUser"));
    assert!(!commands_content.contains("testCommand"));
}

#[test]
fn test_pipeline_with_naming_config() {
    let files = [
        ("src/lib.rs", r#"
use serde::Serialize;

#[derive(Serialize)]
pub struct User {
    pub id: i32,
}

#[tauri::command]
pub fn get_user(id: i32) -> User {
    unimplemented!()
}
"#),
    ];
    let generated = run(&files, NamingConfig {
            type_prefix: "I".to_string(),
            type_suffix: "".to_string(),
            function_prefix: "".to_string(),
            function_suffix: "Cmd".to_string(),
        });
    let types_content = generated.types;
    let commands_content = generated.commands;
    assert!(types_content.contains("export interface IUser"));
    assert!(commands_content.contains("export async function getUserCmd"));
}

#[test]
fn test_pipeline_empty_source() {
    let files = [
    ];
    let generated = run(&files, NamingConfig::default());
    let types_content = generated.types;
    let commands_content = generated.commands;
    assert!(types_content.is_empty());
    assert!(commands_content.contains("import { invoke }"));
}

#[test]
fn test_pipeline_with_enums() {
    let files = [
        ("src/lib.rs", r#"
use serde::Serialize;

#[derive(Serialize)]
pub enum Status {
    Active,
    Inactive,
    Pending,
}

#[tauri::command]
pub fn get_status() -> Status {
    Status::Active
}
"#),
    ];
    let generated = run(&files, NamingConfig::default());
    let types_content = generated.types;
    let commands_content = generated.commands;
    assert!(types_content.contains("export type Status"));
    assert!(types_content.contains("\"Active\""));
    assert!(types_content.contains("\"Inactive\""));
    assert!(types_content.contains("\"Pending\""));
}

#[test]
fn test_pipeline_with_complex_return_types() {
    let files = [
        ("src/lib.rs", r#"
use serde::Serialize;
use std::collections::HashMap;

#[derive(Serialize)]
pub struct User {
    pub id: i32,
}

#[tauri::command]
pub fn get_users() -> Vec<User> {
    vec![]
}

#[tauri::command]
pub fn get_optional_user(id: i32) -> Option<User> {
    None
}

#[tauri::command]
pub fn get_user_result(id: i32) -> Result<User, String> {
    unimplemented!()
}

#[tauri::command]
pub fn get_user_map() -> HashMap<String, User> {
    HashMap::new()
}
"#),
    ];
    let generated = run(&files, NamingConfig::default());
    let types_content = generated.types;
    let commands_content = generated.commands;
    assert!(commands_content.contains("Promise<User[]>"));
    assert!(commands_content.contains("Promise<User | null>"));
    assert!(commands_content.contains("Promise<User>"));
    assert!(commands_content.contains("Promise<Record<string, User>>"));
}

#[test]
fn test_pipeline_verbose_mode() {
    let files = [
        ("src/lib.rs", r#"
use serde::Serialize;

#[derive(Serialize)]
pub struct User {
    pub id: i32,
}

#[tauri::command]
pub fn greet() -> User {
    unimplemented!()
}
"#),
    ];
    let generated = run(&files, NamingConfig::default());
    let types_content = generated.types;
    let commands_content = generated.commands;
    assert!(!types_content.is_empty());
    assert!(!commands_content.is_empty());
}

#[test]
fn test_pipeline_filters_only_used_types() {
    let files = [
        ("src/lib.rs", r#"
use serde::Serialize;

#[derive(Serialize)]
pub struct UsedType {
    pub id: i32,
}

#[derive(Serialize)]
pub struct UnusedType {
    pub name: String,
}

#[tauri::command]
pub fn get_used() -> UsedType {
    unimplemented!()
}
"#),
    ];
    let generated = run(&files, NamingConfig::default());
    let types_content = generated.types;
    let commands_content = generated.commands;
    assert!(types_content.contains("export interface UsedType"));
    assert!(!types_content.contains("UnusedType"));
}

#[test]
fn test_wildcard_reexport_from_submodule() {
    let files = [
        ("src/resources/types.rs", r#"
use serde::{Serialize, Deserialize};

#[derive(Serialize, Deserialize)]
pub struct PodInfo {
    pub name: String,
    pub namespace: String,
    pub status: String,
}

#[derive(Serialize, Deserialize)]
pub struct ContainerInfo {
    pub name: String,
    pub image: String,
}
"#),
        ("src/resources/mod.rs", r#"
mod types;

pub use types::*;
"#),
        ("src/commands.rs", r#"
use crate::resources::PodInfo;

#[tauri::command]
pub fn list_pods(namespace: Option<String>) -> Vec<PodInfo> {
    vec![]
}

#[tauri::command]
pub fn get_pod(name: String) -> PodInfo {
    unimplemented!()
}
"#),
    ];
    let generated = run(&files, NamingConfig::default());
    let types_content = generated.types;
    let commands_content = generated.commands;
    assert!(types_content.contains("export interface PodInfo"), 
            "PodInfo should be in types.ts. Content:\n{}", types_content);
    assert!(types_content.contains("name: string"));
    assert!(types_content.contains("namespace: string"));
    assert!(types_content.contains("status: string"));
    assert!(!types_content.contains("ContainerInfo"), 
            "ContainerInfo should not be in types.ts as it's unused");
    assert!(commands_content.contains("export async function listPods"));
    assert!(commands_content.contains("export async function getPod"));
    assert!(commands_content.contains("Promise<PodInfo[]>"));
    assert!(commands_content.contains("import type { PodInfo }"));
}

#[test]
fn test_relative_wildcard_path() {
    let files = [
        ("src/inner/types.rs", r#"
use serde::Serialize;

#[derive(Serialize)]
pub struct InnerType {
    pub value: i32,
}
"#),
        ("src/inner/mod.rs", r#"
mod types;
pub use types::*;
"#),
        ("src/lib.rs", r#"
use crate::inner::InnerType;

#[tauri::command]
pub fn get_inner() -> InnerType {
    unimplemented!()
}
"#),
    ];
    let generated = run(&files, NamingConfig::default());
    let types_content = generated.types;
    let commands_content = generated.commands;
    assert!(types_content.contains("export interface InnerType"),
            "InnerType should be generated. Content:\n{}", types_content);
}

#[test]
fn test_nested_wildcard_reexport() {
    let files = [
        ("src/a/b/types.rs", r#"
use serde::Serialize;

#[derive(Serialize)]
pub struct DeepType {
    pub depth: i32,
}
"#),
        ("src/a/b/mod.rs", r#"
mod types;
pub use types::*;
"#),
        ("src/a/mod.rs", r#"
pub mod b;
pub use b::*;
"#),
        ("src/lib.rs", r#"
use crate::a::b::DeepType;

#[tauri::command]
pub fn get_deep() -> DeepType {
    unimplemented!()
}
"#),
    ];
    let generated = run(&files, NamingConfig::default());
    let types_content = generated.types;
    let commands_content = generated.commands;
    assert!(types_content.contains("export interface DeepType"),
            "DeepType should be generated. Content:\n{}", types_content);
}

#[test]
fn test_mixed_explicit_and_wildcard_imports() {
    let files = [
        ("src/types/user.rs", r#"
use serde::Serialize;

#[derive(Serialize)]
pub struct User {
    pub id: i32,
    pub name: String,
}
"#),
        ("src/types/item.rs", r#"
use serde::Serialize;

#[derive(Serialize)]
pub struct Item {
    pub id: i32,
    pub title: String,
}
"#),
        ("src/types/mod.rs", r#"
mod user;
mod item;

pub use user::User;
pub use item::*;
"#),
        ("src/commands.rs", r#"
use crate::types::{User, Item};

#[tauri::command]
pub fn get_user(id: i32) -> User {
    unimplemented!()
}

#[tauri::command]
pub fn get_item(id: i32) -> Item {
    unimplemented!()
}
"#),
    ];
    let generated = run(&files, NamingConfig::default());
    let types_content = generated.types;
    let commands_content = generated.commands;
    assert!(types_content.contains("export interface User"),
            "User should be generated. Content:\n{}", types_content);
    assert!(types_content.contains("export interface Item"),
            "Item should be generated. Content:\n{}", types_content);
    assert!(commands_content.contains("import type { User, Item }") || 
            commands_content.contains("import type { Item, User }"),
            "Both User and Item should be imported. Content:\n{}", commands_content);
}

#[test]
fn test_wildcard_with_enum() {
    let files = [
        ("src/models/types.rs", r#"
use serde::Serialize;

#[derive(Serialize)]
pub struct Resource {
    pub name: String,
    pub status: ResourceStatus,
}

#[derive(Serialize)]
pub enum ResourceStatus {
    Running,
    Pending,
    Failed,
}
"#),
        ("src/models/mod.rs", r#"
mod types;
pub use types::*;
"#),
        ("src/lib.rs", r#"
use crate::models::Resource;

#[tauri::command]
pub fn get_resource(name: String) -> Resource {
    unimplemented!()
}
"#),
    ];
    let generated = run(&files, NamingConfig::default());
    let types_content = generated.types;
    let commands_content = generated.commands;
    assert!(types_content.contains("export interface Resource"),
            "Resource should be generated. Content:\n{}", types_content);
    assert!(types_content.contains("export type ResourceStatus"),
            "ResourceStatus enum should be generated. Content:\n{}", types_content);
    assert!(types_content.contains("\"Running\""));
    assert!(types_content.contains("\"Pending\""));
    assert!(types_content.contains("\"Failed\""));
}
