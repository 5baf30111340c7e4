//! Reading source text into the syntax tree, with the `syn` parser.

pub mod lower;
pub mod parsed;

pub use lower::{read_file, read_type, ParseError};
