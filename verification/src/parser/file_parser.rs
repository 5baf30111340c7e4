//! Everything that one source file yields.

use vstd::prelude::*;
use crate::models::parse_result::{FileYield, ParseResult};
use crate::parser::command_parser::{commands_of, extract_commands};
use crate::parser::type_parser::{exported_enums, exported_structs, extract_types};
use crate::reader::lower::{read_file, ParseError};
use crate::reader::parsed::parsed_items;
use crate::syntax::{FileSyntax, ItemTree};

verus! {

/// What the items of a file yield: its commands and its exported types.
pub open spec fn yield_of(items: Seq<ItemTree>, source_file: Seq<char>, expanded: bool) -> FileYield {
    FileYield {
        commands: commands_of(items, source_file),
        structs: exported_structs(items, source_file, expanded),
        enums: exported_enums(items, source_file, expanded),
    }
}

/// The commands and the exported types of a file.
pub fn extract_file(file: &FileSyntax, source_file: &str, expanded: bool) -> (r: ParseResult)
    ensures
        r@ == yield_of(file@.items, source_file@, expanded),
{
    let commands = extract_commands(file, source_file);
    let (structs, enums) = extract_types(file, source_file, expanded);
    ParseResult { commands, structs, enums }
}

/// Parses a source file and extracts its commands and its exported types.
///
/// Fails exactly where the text is not valid Rust.
pub fn parse_source(content: &str, source_file: &str, expanded: bool) -> (r: Result<
    ParseResult,
    ParseError,
>)
    ensures
        match r {
            Ok(found) => parsed_items(content@) is Some && found@ == yield_of(
                parsed_items(content@)->Some_0,
                source_file@,
                expanded,
            ),
            Err(_) => parsed_items(content@) is None,
        },
{
    match read_file(content) {
        Ok(file) => Ok(extract_file(&file, source_file, expanded)),
        Err(error) => Err(error),
    }
}

} // verus!
