//! Extraction of commands and serializable types from a syntax tree.

pub mod attributes;
pub mod command_parser;
pub mod file_parser;
pub mod records;
pub mod type_extractor;
pub mod type_parser;

pub use command_parser::{extract_commands, parse_commands};
pub use file_parser::{extract_file, parse_source};
pub use type_extractor::{parse_type, parse_type_with_context};
pub use type_parser::{extract_types, parse_types, parse_types_expanded};
