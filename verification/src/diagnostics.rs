//! The warnings of a run: parts of types that become `unknown`, and
//! references that several files could satisfy.

use vstd::prelude::*;
use vstd::string::*;
use crate::generator::type_mapper::{collect_warnings, warnings_of, warnings_of_first};
use crate::models::command::{EntryPoint, Param, TauriCommand};
use crate::models::rust_type::RustType;
use crate::models::types::{
    ExportedEnum, ExportedStruct, FieldModel, Payload, RustEnum, RustStruct, StructField,
    VariantData, VariantModel,
};
use crate::reachability::{Decl, Discovery, Root, RootModel, TypeEntry};
use crate::resolver::{resolve, ModuleResolver, Resolution, ResolutionResult, Workspace};
use crate::seqs::lemma_deep_view_push;
use crate::text::{join, joined};

verus! {

/// The warnings for the types of the first `n` fields.
pub open spec fn field_warnings(fields: Seq<FieldModel>, n: nat) -> Seq<Seq<char>>
    decreases n,
{
    if n == 0 || n > fields.len() {
        Seq::empty()
    } else {
        field_warnings(fields, (n - 1) as nat) + warnings_of(fields[n - 1].ty)
    }
}

/// The warnings for a variant's payload.
pub open spec fn payload_warnings(payload: Payload) -> Seq<Seq<char>> {
    match payload {
        Payload::Unit => Seq::empty(),
        Payload::Tuple(types) => warnings_of_first(types, types.len()),
        Payload::Struct(fields) => field_warnings(fields, fields.len()),
    }
}

/// The warnings for the payloads of the first `n` variants.
pub open spec fn variant_warnings(variants: Seq<VariantModel>, n: nat) -> Seq<Seq<char>>
    decreases n,
{
    if n == 0 || n > variants.len() {
        Seq::empty()
    } else {
        variant_warnings(variants, (n - 1) as nat) + payload_warnings(variants[n - 1].payload)
    }
}

/// The warnings for the type at an index of the table.
pub open spec fn declaration_warnings(
    structs: Seq<ExportedStruct>,
    enums: Seq<ExportedEnum>,
    entry: int,
) -> Seq<Seq<char>> {
    if 0 <= entry < structs.len() {
        field_warnings(structs[entry].fields, structs[entry].fields.len())
    } else if structs.len() <= entry < structs.len() + enums.len() {
        variant_warnings(
            enums[entry - structs.len()].variants,
            enums[entry - structs.len()].variants.len(),
        )
    } else {
        Seq::empty()
    }
}

/// The warnings for the first `n` reachable types.
pub open spec fn reachable_warnings(
    order: Seq<Discovery>,
    n: nat,
    structs: Seq<ExportedStruct>,
    enums: Seq<ExportedEnum>,
) -> Seq<Seq<char>>
    decreases n,
{
    if n == 0 || n > order.len() {
        Seq::empty()
    } else {
        reachable_warnings(order, (n - 1) as nat, structs, enums) + declaration_warnings(
            structs,
            enums,
            order[n - 1].entry as int,
        )
    }
}

/// The warnings for the types of the first `n` arguments.
pub open spec fn param_warnings(params: Seq<Param>, n: nat) -> Seq<Seq<char>>
    decreases n,
{
    if n == 0 || n > params.len() {
        Seq::empty()
    } else {
        param_warnings(params, (n - 1) as nat) + warnings_of(params[n - 1].ty)
    }
}

/// The warnings for the signature of a command.
pub open spec fn signature_warnings(command: EntryPoint) -> Seq<Seq<char>> {
    param_warnings(command.args, command.args.len()) + match command.return_type {
        Some(ty) => warnings_of(ty),
        None => Seq::empty(),
    }
}

/// The warnings for the signatures of the first `n` commands.
pub open spec fn command_warnings(commands: Seq<EntryPoint>, n: nat) -> Seq<Seq<char>>
    decreases n,
{
    if n == 0 || n > commands.len() {
        Seq::empty()
    } else {
        command_warnings(commands, (n - 1) as nat) + signature_warnings(commands[n - 1])
    }
}

/// The warning for a reference that several files could satisfy.
pub open spec fn ambiguity_warning(name: Seq<char>, file: Seq<char>, candidates: Seq<Seq<char>>) -> Seq<
    char,
> {
    "Ambiguous type '"@ + name + "' in "@ + file + ": "@ + joined(candidates, ", "@)
}

/// The warning for a reference from a file, if it is ambiguous there.
pub open spec fn reference_warning(w: Workspace, name: Seq<char>, file: Seq<char>) -> Seq<Seq<char>> {
    match resolve(w, name, file) {
        Resolution::Ambiguous(candidates) => seq![ambiguity_warning(name, file, candidates)],
        _ => Seq::empty(),
    }
}

/// The warnings for the first `n` references of a root.
pub open spec fn root_warnings(w: Workspace, root: RootModel, n: nat) -> Seq<Seq<char>>
    decreases n,
{
    if n == 0 || n > root.refs.len() {
        Seq::empty()
    } else {
        root_warnings(w, root, (n - 1) as nat) + reference_warning(w, root.refs[n - 1], root.file)
    }
}

/// The warnings for the references of the first `n` roots.
pub open spec fn ambiguity_warnings(w: Workspace, roots: Seq<RootModel>, n: nat) -> Seq<Seq<char>>
    decreases n,
{
    if n == 0 || n > roots.len() {
        Seq::empty()
    } else {
        ambiguity_warnings(w, roots, (n - 1) as nat) + root_warnings(
            w,
            roots[n - 1],
            roots[n - 1].refs.len(),
        )
    }
}

/// The references of a discovered entry, with the file that they are looked
/// up from: the file of the root that led to the entry.
pub open spec fn discovery_references(found: Discovery, roots: Seq<RootModel>, table: Seq<Decl>) -> RootModel {
    RootModel { file: roots[found.root as int].file, refs: table[found.entry as int].refs }
}

/// The warnings for the references of the first `n` discovered entries: one
/// for each name in a field or a variant that is ambiguous from the file of
/// the root.
pub open spec fn discovery_warnings(
    w: Workspace,
    order: Seq<Discovery>,
    roots: Seq<RootModel>,
    table: Seq<Decl>,
    n: nat,
) -> Seq<Seq<char>>
    decreases n,
{
    if n == 0 || n > order.len() {
        Seq::empty()
    } else {
        let found = order[n - 1];
        discovery_warnings(w, order, roots, table, (n - 1) as nat) + if found.entry < table.len()
            && found.root < roots.len() {
            root_warnings(
                w,
                discovery_references(found, roots, table),
                table[found.entry as int].refs.len(),
            )
        } else {
            Seq::empty()
        }
    }
}

/// The warnings of a run: for the reachable types in the order of discovery,
/// then for the signatures of the commands, then for the ambiguous
/// references of the commands, then for the ambiguous references of the
/// reachable types.
pub open spec fn run_warnings(
    order: Seq<Discovery>,
    structs: Seq<ExportedStruct>,
    enums: Seq<ExportedEnum>,
    commands: Seq<EntryPoint>,
    roots: Seq<RootModel>,
    table: Seq<Decl>,
    w: Workspace,
) -> Seq<Seq<char>> {
    reachable_warnings(order, order.len(), structs, enums) + command_warnings(
        commands,
        commands.len(),
    ) + ambiguity_warnings(w, roots, roots.len()) + discovery_warnings(
        w,
        order,
        roots,
        table,
        order.len(),
    )
}

fn collect_field_warnings(fields: &Vec<StructField>, out: &mut Vec<String>)
    ensures
        final(out).deep_view() == old(out).deep_view() + field_warnings(
            fields.deep_view(),
            fields@.len() as nat,
        ),
{
    let ghost start = out.deep_view();
    let mut i: usize = 0;
    while i < fields.len()
        invariant
            i <= fields@.len(),
            out.deep_view() == start + field_warnings(fields.deep_view(), i as nat),
        decreases fields@.len() - i,
    {
        collect_warnings(&fields[i].ty, out);
        i += 1;
    }
}

fn collect_type_warnings(types: &Vec<RustType>, out: &mut Vec<String>)
    ensures
        final(out).deep_view() == old(out).deep_view() + warnings_of_first(
            types.deep_view(),
            types@.len() as nat,
        ),
{
    let ghost start = out.deep_view();
    let mut i: usize = 0;
    while i < types.len()
        invariant
            i <= types@.len(),
            out.deep_view() == start + warnings_of_first(types.deep_view(), i as nat),
        decreases types@.len() - i,
    {
        collect_warnings(&types[i], out);
        i += 1;
    }
}

fn collect_enum_warnings(item: &RustEnum, out: &mut Vec<String>)
    ensures
        final(out).deep_view() == old(out).deep_view() + variant_warnings(
            item@.variants,
            item@.variants.len(),
        ),
{
    let ghost start = out.deep_view();
    let mut i: usize = 0;
    while i < item.variants.len()
        invariant
            i <= item.variants@.len(),
            out.deep_view() == start + variant_warnings(item@.variants, i as nat),
        decreases item.variants@.len() - i,
    {
        match &item.variants[i].data {
            VariantData::Unit => {},
            VariantData::Tuple(types) => {
                collect_type_warnings(types, out);
            },
            VariantData::Struct(fields) => {
                collect_field_warnings(fields, out);
            },
        }
        i += 1;
    }
}

fn collect_signature_warnings(command: &TauriCommand, out: &mut Vec<String>)
    ensures
        final(out).deep_view() == old(out).deep_view() + signature_warnings(command@),
{
    let ghost start = out.deep_view();
    let mut i: usize = 0;
    while i < command.args.len()
        invariant
            i <= command.args@.len(),
            out.deep_view() == start + param_warnings(command@.args, i as nat),
        decreases command.args@.len() - i,
    {
        collect_warnings(&command.args[i].ty, out);
        i += 1;
    }
    if let Some(ty) = &command.return_type {
        collect_warnings(ty, out);
    }
}

/// Appends a warning for each of the references that is ambiguous from the
/// file.
fn collect_reference_warnings(
    resolver: &ModuleResolver,
    references: &Vec<String>,
    file: &str,
    out: &mut Vec<String>,
)
    ensures
        final(out).deep_view() == old(out).deep_view() + root_warnings(
            resolver@,
            RootModel { file: file@, refs: references.deep_view() },
            references@.len() as nat,
        ),
{
    let ghost start = out.deep_view();
    let ghost root = RootModel { file: file@, refs: references.deep_view() };
    let mut i: usize = 0;
    while i < references.len()
        invariant
            i <= references@.len(),
            root == (RootModel { file: file@, refs: references.deep_view() }),
            out.deep_view() == start + root_warnings(resolver@, root, i as nat),
        decreases references@.len() - i,
    {
        let name = references[i].as_str();
        if let ResolutionResult::Ambiguous(candidates) = resolver.resolve_type(name, file) {
            let mut warning = String::from_str("Ambiguous type '");
            warning.append(name);
            warning.append("' in ");
            warning.append(file);
            warning.append(": ");
            let list = join(&candidates, ", ");
            warning.append(list.as_str());
            let ghost old_out = *out;
            out.push(warning);
            proof {
                lemma_deep_view_push(old_out, *out, warning);
            }
        }
        i += 1;
    }
}

/// The warnings of a run.
pub fn collect_run_warnings(
    order: &Vec<Discovery>,
    structs: &Vec<RustStruct>,
    enums: &Vec<RustEnum>,
    commands: &Vec<TauriCommand>,
    roots: &Vec<Root>,
    table: &Vec<TypeEntry>,
    resolver: &ModuleResolver,
) -> (r: Vec<String>)
    ensures
        r.deep_view() == run_warnings(
            order@,
            structs.deep_view(),
            enums.deep_view(),
            commands.deep_view(),
            roots.deep_view(),
            table.deep_view(),
            resolver@,
        ),
{
    let mut out: Vec<String> = Vec::new();
    let ghost ss = structs.deep_view();
    let ghost es = enums.deep_view();
    let mut k: usize = 0;
    while k < order.len()
        invariant
            k <= order@.len(),
            ss == structs.deep_view(),
            es == enums.deep_view(),
            out.deep_view() == reachable_warnings(order@, k as nat, ss, es),
        decreases order@.len() - k,
    {
        let entry = order[k].entry;
        if entry < structs.len() {
            collect_field_warnings(&structs[entry].fields, &mut out);
        } else if entry - structs.len() < enums.len() {
            collect_enum_warnings(&enums[entry - structs.len()], &mut out);
        }
        k += 1;
    }
    let ghost first = out.deep_view();
    let mut c: usize = 0;
    while c < commands.len()
        invariant
            c <= commands@.len(),
            out.deep_view() == first + command_warnings(commands.deep_view(), c as nat),
        decreases commands@.len() - c,
    {
        collect_signature_warnings(&commands[c], &mut out);
        c += 1;
    }
    let ghost second = out.deep_view();
    let mut r: usize = 0;
    while r < roots.len()
        invariant
            r <= roots@.len(),
            out.deep_view() == second + ambiguity_warnings(
                resolver@,
                roots.deep_view(),
                r as nat,
            ),
        decreases roots@.len() - r,
    {
        collect_reference_warnings(
            resolver,
            &roots[r].references,
            roots[r].source_file.as_str(),
            &mut out,
        );
        r += 1;
    }
    let ghost third = out.deep_view();
    let mut d: usize = 0;
    while d < order.len()
        invariant
            d <= order@.len(),
            out.deep_view() == third + discovery_warnings(
                resolver@,
                order@,
                roots.deep_view(),
                table.deep_view(),
                d as nat,
            ),
        decreases order@.len() - d,
    {
        let found = order[d];
        if found.entry < table.len() && found.root < roots.len() {
            collect_reference_warnings(
                resolver,
                &table[found.entry].references,
                roots[found.root].source_file.as_str(),
                &mut out,
            );
        }
        d += 1;
    }
    out
}

} // verus!
