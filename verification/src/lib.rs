//! Generation of TypeScript bindings for a Tauri application.
//!
//! The library reads Rust source text and produces the text of two TypeScript
//! files: the declarations of the serializable types that the commands use,
//! and one asynchronous wrapper for each command.
//!
//! The work is done in passes, each with a mathematical model that its
//! contract is stated over:
//!
//! - [`reader`] parses a file with `syn` and hands over its [`syntax`] tree;
//! - [`parser`] extracts the commands and the exported structs and enums;
//! - [`resolver`] records the scope of each file and resolves type references
//!   across files;
//! - [`reachability`] finds the exported types that the commands reach;
//! - [`generator`] maps Rust types to TypeScript and writes declarations;
//! - [`pipeline`] puts the passes together, and [`diagnostics`] collects the
//!   warnings of a run.
//!
//! Everything is verified but the accessors of `syn` nodes in
//! [`reader::parsed`] and four functions of the standard library in [`text`],
//! whose contracts are trusted.

pub mod config;
pub mod diagnostics;
pub mod generator;
pub mod known_types;
pub mod maps;
pub mod models;
pub mod names;
pub mod parser;
pub mod paths;
pub mod pipeline;
pub mod reachability;
pub mod reader;
pub mod resolver;
pub mod scanner;
pub mod seqs;
pub mod syntax;
pub mod text;
pub mod utils;
