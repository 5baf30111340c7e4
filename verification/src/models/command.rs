//! Remote-callable commands.

use vstd::prelude::*;
use super::rust_type::{RustType, TypeExpr};

verus! {

/// An argument of a command.
#[derive(Debug, Clone)]
pub struct CommandArg {
    /// The argument's name.
    pub name: String,
    /// The argument's type.
    pub ty: RustType,
}

/// A function that can be called from outside the program.
#[derive(Debug, Clone)]
pub struct TauriCommand {
    /// The name of the function.
    pub name: String,
    /// The arguments a caller supplies, in order.
    pub args: Vec<CommandArg>,
    /// The return type; `None` for a function that returns `()`.
    pub return_type: Option<RustType>,
    /// The file that declares the command.
    pub source_file: String,
}

/// The model of a command argument.
pub struct Param {
    pub name: Seq<char>,
    pub ty: TypeExpr,
}

/// The model of a command.
pub struct EntryPoint {
    pub name: Seq<char>,
    pub args: Seq<Param>,
    pub return_type: Option<TypeExpr>,
    pub source_file: Seq<char>,
}

impl View for CommandArg {
    type V = Param;

    open spec fn view(&self) -> Param {
        Param { name: self.name@, ty: self.ty@ }
    }
}

impl DeepView for CommandArg {
    type V = Param;

    open spec fn deep_view(&self) -> Param {
        self@
    }
}

impl View for TauriCommand {
    type V = EntryPoint;

    open spec fn view(&self) -> EntryPoint {
        EntryPoint {
            name: self.name@,
            args: self.args.deep_view(),
            return_type: self.return_type.deep_view(),
            source_file: self.source_file@,
        }
    }
}

impl DeepView for TauriCommand {
    type V = EntryPoint;

    open spec fn deep_view(&self) -> EntryPoint {
        self@
    }
}

} // verus!
