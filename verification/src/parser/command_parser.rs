//! The commands of a source file.

use vstd::prelude::*;
use vstd::string::*;
use crate::models::command::{CommandArg, EntryPoint, Param, TauriCommand};
use crate::models::rust_type::{RustType, TypeExpr};
use crate::parser::attributes::{has_command_attribute, has_command_marker};
use crate::parser::type_extractor::{parse_type, type_expr_of};
use crate::reader::lower::{read_file, ParseError};
use crate::reader::parsed::parsed_items;
use crate::syntax::{
    FileSyntax, FnArgSyntax, FnArgTree, FnSyntax, FnTree, ItemSyntax, ItemTree, TypeSyntax,
    TypeTree,
};
use crate::text::str_eq;

verus! {

/// Names of the handle types that the framework injects into a command; a
/// caller never supplies them.
pub open spec fn is_injected_name(name: Seq<char>) -> bool {
    name == "State"@ || name == "Window"@ || name == "AppHandle"@ || name == "Webview"@ || name
        == "WebviewWindow"@
}

/// Whether the type is an injected handle, by the last segment of its path.
pub open spec fn is_injected_type(ty: TypeTree) -> bool {
    ty is Path && is_injected_name(ty->Path_name)
}

/// The argument that a caller supplies for a parameter: none for `self`, for
/// a pattern that is not a plain identifier, and for an injected handle.
pub open spec fn argument_of(arg: FnArgTree) -> Option<Param> {
    match arg {
        FnArgTree::Typed { name: Some(name), ty } => if is_injected_type(ty) {
            None
        } else {
            Some(Param { name, ty: type_expr_of(ty, Set::empty()) })
        },
        _ => None,
    }
}

/// The arguments that a caller supplies, in order.
pub open spec fn arguments_of(inputs: Seq<FnArgTree>) -> Seq<Param>
    decreases inputs.len(),
{
    if inputs.len() == 0 {
        Seq::empty()
    } else {
        match argument_of(inputs.last()) {
            Some(param) => arguments_of(inputs.drop_last()).push(param),
            None => arguments_of(inputs.drop_last()),
        }
    }
}

/// The return type of a command: none where no type is declared and where
/// the declared type is `()`.
pub open spec fn return_type_of(output: Option<TypeTree>) -> Option<TypeExpr> {
    match output {
        None => None,
        Some(ty) => {
            let expr = type_expr_of(ty, Set::empty());
            if expr is Unit {
                None
            } else {
                Some(expr)
            }
        },
    }
}

/// The record of a function as a command declared in `source_file`.
pub open spec fn command_record(func: FnTree, source_file: Seq<char>) -> EntryPoint {
    EntryPoint {
        name: func.name,
        args: arguments_of(func.inputs),
        return_type: return_type_of(func.output),
        source_file,
    }
}

/// The command that a function declares: its record where it bears the
/// marker, nothing otherwise.
pub open spec fn fn_commands(func: FnTree, source_file: Seq<char>) -> Seq<EntryPoint> {
    if has_command_marker(func.attrs) {
        seq![command_record(func, source_file)]
    } else {
        Seq::empty()
    }
}

/// The commands among the first `n` items of an impl block.
pub open spec fn method_commands(items: Seq<Option<FnTree>>, n: nat, source_file: Seq<char>) -> Seq<
    EntryPoint,
>
    decreases n,
{
    if n == 0 || n > items.len() {
        Seq::empty()
    } else {
        method_commands(items, (n - 1) as nat, source_file) + match items[n - 1] {
            Some(func) => fn_commands(func, source_file),
            None => Seq::empty(),
        }
    }
}

/// The commands among the first `n` items of a module: its functions only.
pub open spec fn module_commands(items: Seq<ItemTree>, n: nat, source_file: Seq<char>) -> Seq<
    EntryPoint,
>
    decreases n,
{
    if n == 0 || n > items.len() {
        Seq::empty()
    } else {
        module_commands(items, (n - 1) as nat, source_file) + match items[n - 1] {
            ItemTree::Fn(func) => fn_commands(func, source_file),
            _ => Seq::empty(),
        }
    }
}

/// The commands that one item of a file holds: a free function, the methods
/// of an impl block, the functions directly inside a module.
pub open spec fn item_commands(item: ItemTree, source_file: Seq<char>) -> Seq<EntryPoint> {
    match item {
        ItemTree::Fn(func) => fn_commands(func, source_file),
        ItemTree::Impl(block) => method_commands(block.items, block.items.len(), source_file),
        ItemTree::Mod(items) => module_commands(items, items.len(), source_file),
        _ => Seq::empty(),
    }
}

/// The commands among the first `n` items of a file.
pub open spec fn commands_in(items: Seq<ItemTree>, n: nat, source_file: Seq<char>) -> Seq<
    EntryPoint,
>
    decreases n,
{
    if n == 0 || n > items.len() {
        Seq::empty()
    } else {
        commands_in(items, (n - 1) as nat, source_file) + item_commands(items[n - 1], source_file)
    }
}

/// The commands of a file, in the order of the source.
pub open spec fn commands_of(items: Seq<ItemTree>, source_file: Seq<char>) -> Seq<EntryPoint> {
    commands_in(items, items.len(), source_file)
}

/// Whether the function bears the command marker.
pub fn is_tauri_command(func: &FnSyntax) -> (r: bool)
    ensures
        r == has_command_marker(func@.attrs),
{
    has_command_attribute(&func.attrs)
}

/// Whether the type is a handle that the framework injects.
pub fn is_tauri_special_type(ty: &TypeSyntax) -> (r: bool)
    ensures
        r == is_injected_type(ty@),
{
    match ty {
        TypeSyntax::Path { name, .. } => {
            let n = name.as_str();
            str_eq(n, "State") || str_eq(n, "Window") || str_eq(n, "AppHandle") || str_eq(
                n,
                "Webview",
            ) || str_eq(n, "WebviewWindow")
        },
        _ => false,
    }
}

/// The argument that a caller supplies for a parameter, if any.
pub fn parse_fn_arg(arg: &FnArgSyntax) -> (r: Option<CommandArg>)
    ensures
        r.deep_view() == argument_of(arg@),
{
    match arg {
        FnArgSyntax::Typed { name, ty } => {
            match name {
                Some(name) => {
                    if is_tauri_special_type(ty) {
                        None
                    } else {
                        Some(CommandArg { name: name.clone(), ty: parse_type(ty) })
                    }
                },
                None => None,
            }
        },
        FnArgSyntax::Receiver => None,
    }
}

/// The return type of a command.
pub fn parse_return_type(output: &Option<TypeSyntax>) -> (r: Option<RustType>)
    ensures
        r.deep_view() == return_type_of(output.deep_view()),
{
    match output {
        None => None,
        Some(ty) => {
            let rust_type = parse_type(ty);
            match rust_type {
                RustType::Unit => None,
                _ => Some(rust_type),
            }
        },
    }
}

/// Builds the record of a function as a command.
pub fn parse_command_fn(func: &FnSyntax, source_file: &str) -> (r: TauriCommand)
    ensures
        r@ == command_record(func@, source_file@),
{
    let mut args: Vec<CommandArg> = Vec::new();
    let mut i: usize = 0;
    while i < func.inputs.len()
        invariant
            i <= func.inputs@.len(),
            args.deep_view() == arguments_of(func.inputs.deep_view().take(i as int)),
        decreases func.inputs@.len() - i,
    {
        proof {
            let upto = func.inputs.deep_view().take(i + 1);
            assert(upto.drop_last() =~= func.inputs.deep_view().take(i as int));
        }
        if let Some(arg) = parse_fn_arg(&func.inputs[i]) {
            args.push(arg);
        }
        i += 1;
    }
    assert(func.inputs.deep_view().take(func.inputs@.len() as int) =~= func.inputs.deep_view());
    TauriCommand {
        name: func.name.clone(),
        args,
        return_type: parse_return_type(&func.output),
        source_file: String::from_str(source_file),
    }
}

fn push_command(func: &FnSyntax, source_file: &str, commands: &mut Vec<TauriCommand>)
    ensures
        final(commands).deep_view() == old(commands).deep_view() + fn_commands(
            func@,
            source_file@,
        ),
{
    if is_tauri_command(func) {
        let cmd = parse_command_fn(func, source_file);
        commands.push(cmd);
    }
}

fn push_method_commands(
    items: &Vec<Option<FnSyntax>>,
    source_file: &str,
    commands: &mut Vec<TauriCommand>,
)
    ensures
        final(commands).deep_view() == old(commands).deep_view() + method_commands(
            items.deep_view(),
            items@.len() as nat,
            source_file@,
        ),
{
    let mut i: usize = 0;
    while i < items.len()
        invariant
            i <= items@.len(),
            commands.deep_view() == old(commands).deep_view() + method_commands(
                items.deep_view(),
                i as nat,
                source_file@,
            ),
        decreases items@.len() - i,
    {
        if let Some(method) = &items[i] {
            push_command(method, source_file, commands);
        }
        i += 1;
    }
}

fn push_module_commands(items: &Vec<ItemSyntax>, source_file: &str, commands: &mut Vec<TauriCommand>)
    ensures
        final(commands).deep_view() == old(commands).deep_view() + module_commands(
            items.deep_view(),
            items@.len() as nat,
            source_file@,
        ),
{
    let mut i: usize = 0;
    while i < items.len()
        invariant
            i <= items@.len(),
            commands.deep_view() == old(commands).deep_view() + module_commands(
                items.deep_view(),
                i as nat,
                source_file@,
            ),
        decreases items@.len() - i,
    {
        if let ItemSyntax::Fn(func) = &items[i] {
            push_command(func, source_file, commands);
        }
        i += 1;
    }
}

/// The commands of a file, in the order of the source: the marked free
/// functions, methods of impl blocks, and functions directly inside a module.
pub fn extract_commands(file: &FileSyntax, source_file: &str) -> (r: Vec<TauriCommand>)
    ensures
        r.deep_view() == commands_of(file@.items, source_file@),
{
    let mut commands: Vec<TauriCommand> = Vec::new();
    let mut i: usize = 0;
    let ghost trees = file.items.deep_view();
    while i < file.items.len()
        invariant
            i <= file.items@.len(),
            trees == file.items.deep_view(),
            commands.deep_view() == commands_in(trees, i as nat, source_file@),
        decreases file.items@.len() - i,
    {
        match &file.items[i] {
            ItemSyntax::Fn(func) => {
                push_command(func, source_file, &mut commands);
            },
            ItemSyntax::Impl(block) => {
                push_method_commands(&block.items, source_file, &mut commands);
            },
            ItemSyntax::Mod(items) => {
                proof {
                    crate::syntax::lemma_mod_view(*items);
                }
                push_module_commands(items, source_file, &mut commands);
            },
            _ => {},
        }
        i += 1;
    }
    commands
}

/// Parses a source file and extracts its commands.
///
/// Fails exactly where the text is not valid Rust.
pub fn parse_commands(content: &str, source_file: &str) -> (r: Result<Vec<TauriCommand>, ParseError>)
    ensures
        match r {
            Ok(commands) => parsed_items(content@) is Some && commands.deep_view() == commands_of(
                parsed_items(content@)->Some_0,
                source_file@,
            ),
            Err(_) => parsed_items(content@) is None,
        },
{
    match read_file(content) {
        Ok(file) => Ok(extract_commands(&file, source_file)),
        Err(error) => Err(error),
    }
}

} // verus!
