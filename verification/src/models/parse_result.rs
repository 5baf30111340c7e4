//! What one source file yields.

use vstd::prelude::*;
use super::command::{EntryPoint, TauriCommand};
use super::types::{ExportedEnum, ExportedStruct, RustEnum, RustStruct};

verus! {

/// The commands and serializable types found in one file.
#[derive(Debug)]
pub struct ParseResult {
    /// The commands found in the file.
    pub commands: Vec<TauriCommand>,
    /// The structs found in the file.
    pub structs: Vec<RustStruct>,
    /// The enums found in the file.
    pub enums: Vec<RustEnum>,
}

/// The model of what one file yields.
pub struct FileYield {
    pub commands: Seq<EntryPoint>,
    pub structs: Seq<ExportedStruct>,
    pub enums: Seq<ExportedEnum>,
}

impl View for ParseResult {
    type V = FileYield;

    open spec fn view(&self) -> FileYield {
        FileYield {
            commands: self.commands.deep_view(),
            structs: self.structs.deep_view(),
            enums: self.enums.deep_view(),
        }
    }
}

/// The yield of a file that declares nothing.
pub open spec fn empty_yield() -> FileYield {
    FileYield { commands: Seq::empty(), structs: Seq::empty(), enums: Seq::empty() }
}

impl ParseResult {
    /// A result that holds nothing.
    pub fn new() -> (r: Self)
        ensures
            r@ == empty_yield(),
    {
        let r = ParseResult { commands: Vec::new(), structs: Vec::new(), enums: Vec::new() };
        assert(r.commands.deep_view() =~= Seq::<EntryPoint>::empty());
        assert(r.structs.deep_view() =~= Seq::<ExportedStruct>::empty());
        assert(r.enums.deep_view() =~= Seq::<ExportedEnum>::empty());
        r
    }
}

impl Default for ParseResult {
    fn default() -> (r: Self)
        ensures
            r@ == empty_yield(),
    {
        ParseResult::new()
    }
}

} // verus!
