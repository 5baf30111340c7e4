//! Which exported types the commands use, directly or through the fields of
//! other types.

use vstd::prelude::*;
use crate::models::command::{EntryPoint, Param, TauriCommand};
use crate::models::rust_type::{lemma_tuple_view, RustType, TypeExpr};
use crate::models::types::{
    ExportedEnum, ExportedStruct, FieldModel, Payload, RustEnum, RustStruct, StructField,
    VariantData, VariantModel,
};
use crate::resolver::{resolve, ModuleResolver, Resolution, ResolutionResult, Workspace};
use crate::seqs::{
    first_some, lemma_first_some_at,
    lemma_first_some_none,
};
use crate::text::str_eq;

verus! {

/// The names of declared types that a type expression refers to, from left to
/// right.
pub open spec fn named_in(ty: TypeExpr) -> Seq<Seq<char>>
    decreases ty, 0nat,
{
    match ty {
        TypeExpr::Named(name) => seq![name],
        TypeExpr::List(inner) => named_in(*inner),
        TypeExpr::Optional(inner) => named_in(*inner),
        TypeExpr::Fallible(inner) => named_in(*inner),
        TypeExpr::Mapping { key, value } => named_in(*key) + named_in(*value),
        TypeExpr::Tuple(types) => named_in_first(types, types.len()),
        _ => Seq::empty(),
    }
}

/// The names that the first `n` type expressions refer to.
pub open spec fn named_in_first(types: Seq<TypeExpr>, n: nat) -> Seq<Seq<char>>
    decreases types, n,
{
    if n == 0 || n > types.len() {
        Seq::empty()
    } else {
        named_in_first(types, (n - 1) as nat) + named_in(types[n - 1])
    }
}

/// The names that the types of the first `n` fields refer to.
pub open spec fn named_in_fields(fields: Seq<FieldModel>, n: nat) -> Seq<Seq<char>>
    decreases n,
{
    if n == 0 || n > fields.len() {
        Seq::empty()
    } else {
        named_in_fields(fields, (n - 1) as nat) + named_in(fields[n - 1].ty)
    }
}

/// The names that a variant's payload refers to.
pub open spec fn named_in_payload(payload: Payload) -> Seq<Seq<char>> {
    match payload {
        Payload::Unit => Seq::empty(),
        Payload::Tuple(types) => named_in_first(types, types.len()),
        Payload::Struct(fields) => named_in_fields(fields, fields.len()),
    }
}

/// The names that the payloads of the first `n` variants refer to.
pub open spec fn named_in_variants(variants: Seq<VariantModel>, n: nat) -> Seq<Seq<char>>
    decreases n,
{
    if n == 0 || n > variants.len() {
        Seq::empty()
    } else {
        named_in_variants(variants, (n - 1) as nat) + named_in_payload(variants[n - 1].payload)
    }
}

/// The names that the types of the first `n` arguments refer to.
pub open spec fn named_in_params(params: Seq<Param>, n: nat) -> Seq<Seq<char>>
    decreases n,
{
    if n == 0 || n > params.len() {
        Seq::empty()
    } else {
        named_in_params(params, (n - 1) as nat) + named_in(params[n - 1].ty)
    }
}

/// An exported type as the filter sees it.
#[derive(Debug)]
pub struct TypeEntry {
    /// The name of the type.
    pub name: String,
    /// The file that declares it.
    pub source_file: String,
    /// The names of declared types in its fields or variants, in order.
    pub references: Vec<String>,
}

/// The model of a table entry.
pub struct Decl {
    pub name: Seq<char>,
    pub file: Seq<char>,
    pub refs: Seq<Seq<char>>,
}

impl View for TypeEntry {
    type V = Decl;

    open spec fn view(&self) -> Decl {
        Decl { name: self.name@, file: self.source_file@, refs: self.references.deep_view() }
    }
}

impl DeepView for TypeEntry {
    type V = Decl;

    open spec fn deep_view(&self) -> Decl {
        self@
    }
}

/// A command as the filter sees it.
#[derive(Debug)]
pub struct Root {
    /// The file that declares the command.
    pub source_file: String,
    /// The names of declared types in its arguments and return type, in order.
    pub references: Vec<String>,
}

/// The model of a root.
pub struct RootModel {
    pub file: Seq<char>,
    pub refs: Seq<Seq<char>>,
}

impl View for Root {
    type V = RootModel;

    open spec fn view(&self) -> RootModel {
        RootModel { file: self.source_file@, refs: self.references.deep_view() }
    }
}

impl DeepView for Root {
    type V = RootModel;

    open spec fn deep_view(&self) -> RootModel {
        self@
    }
}

/// The table entry of a struct.
pub open spec fn struct_decl(item: ExportedStruct) -> Decl {
    Decl {
        name: item.name,
        file: item.source_file,
        refs: named_in_fields(item.fields, item.fields.len()),
    }
}

/// The table entry of an enum.
pub open spec fn enum_decl(item: ExportedEnum) -> Decl {
    Decl {
        name: item.name,
        file: item.source_file,
        refs: named_in_variants(item.variants, item.variants.len()),
    }
}

/// The table of the exported types: the structs in their order, then the
/// enums in theirs.
pub open spec fn table_of(structs: Seq<ExportedStruct>, enums: Seq<ExportedEnum>) -> Seq<Decl> {
    Seq::new(structs.len(), |i: int| struct_decl(structs[i])) + Seq::new(
        enums.len(),
        |i: int| enum_decl(enums[i]),
    )
}

/// The root of a command: its file, and the names in its arguments followed
/// by those in its return type.
pub open spec fn root_of(command: EntryPoint) -> RootModel {
    RootModel {
        file: command.source_file,
        refs: named_in_params(command.args, command.args.len()) + match command.return_type {
            Some(ty) => named_in(ty),
            None => Seq::empty(),
        },
    }
}

/// The roots of the commands, in their order.
pub open spec fn roots_of(commands: Seq<EntryPoint>) -> Seq<RootModel> {
    Seq::new(commands.len(), |i: int| root_of(commands[i]))
}

/// For each entry of the table, its index if it has the name and, where a
/// file is asked for, is declared in that file.
pub open spec fn matches_at(table: Seq<Decl>, name: Seq<char>, file: Option<Seq<char>>) -> Seq<
    Option<int>,
> {
    Seq::new(
        table.len(),
        |i: int|
            if table[i].name == name && (file is None || file == Some(table[i].file)) {
                Some(i)
            } else {
                None
            },
    )
}

/// The first entry with the name and, where a file is asked for, declared in
/// that file.
pub open spec fn first_match(table: Seq<Decl>, name: Seq<char>, file: Option<Seq<char>>) -> Option<
    int,
> {
    first_some(matches_at(table, name, file))
}

/// The entry that a name stands for, seen from a file: among the entries
/// with that name, the first one declared in the file that the resolver
/// finds; where it finds none, or that file has no such entry, the first one
/// in the order of the table.
pub open spec fn lookup(table: Seq<Decl>, w: Workspace, name: Seq<char>, from_file: Seq<char>) -> Option<
    int,
> {
    let preferred = match resolve(w, name, from_file) {
        Resolution::Found(file) => first_match(table, name, Some(file)),
        _ => None,
    };
    if preferred is Some {
        preferred
    } else {
        first_match(table, name, None)
    }
}

/// Appends to `out` the names that a type refers to.
pub fn collect_names(ty: &RustType, out: &mut Vec<String>)
    ensures
        final(out).deep_view() == old(out).deep_view() + named_in(ty@),
    decreases ty,
{
    let ghost start = out.deep_view();
    match ty {
        RustType::Custom(name) => {
            let copy = name.clone();
            out.push(copy);
        },
        RustType::Vec(inner) => {
            collect_names(inner, out);
        },
        RustType::Option(inner) => {
            collect_names(inner, out);
        },
        RustType::Result(inner) => {
            collect_names(inner, out);
        },
        RustType::HashMap { key, value } => {
            collect_names(key, out);
            collect_names(value, out);
        },
        RustType::Tuple(types) => {
            proof {
                lemma_tuple_view(*types);
            }
            let mut i: usize = 0;
            while i < types.len()
                invariant
                    i <= types@.len(),
                    *ty == RustType::Tuple(*types),
                    out.deep_view() == start + named_in_first(types.deep_view(), i as nat),
                decreases types@.len() - i,
            {
                proof {
                    assert(ty->Tuple_0 == *types);
                }
                collect_names(&types[i], out);
                i += 1;
            }
        },
        _ => {
        },
    }
}

fn collect_field_names(fields: &Vec<StructField>, out: &mut Vec<String>)
    ensures
        final(out).deep_view() == old(out).deep_view() + named_in_fields(
            fields.deep_view(),
            fields@.len() as nat,
        ),
{
    let ghost start = out.deep_view();
    let mut i: usize = 0;
    while i < fields.len()
        invariant
            i <= fields@.len(),
            out.deep_view() == start + named_in_fields(fields.deep_view(), i as nat),
        decreases fields@.len() - i,
    {
        collect_names(&fields[i].ty, out);
        i += 1;
    }
}

fn collect_type_names(types: &Vec<RustType>, out: &mut Vec<String>)
    ensures
        final(out).deep_view() == old(out).deep_view() + named_in_first(
            types.deep_view(),
            types@.len() as nat,
        ),
{
    let ghost start = out.deep_view();
    let mut i: usize = 0;
    while i < types.len()
        invariant
            i <= types@.len(),
            out.deep_view() == start + named_in_first(types.deep_view(), i as nat),
        decreases types@.len() - i,
    {
        collect_names(&types[i], out);
        i += 1;
    }
}

/// The table entry of a struct.
pub fn struct_entry(item: &RustStruct) -> (r: TypeEntry)
    ensures
        r@ == struct_decl(item@),
{
    let mut references: Vec<String> = Vec::new();
    collect_field_names(&item.fields, &mut references);
    TypeEntry { name: item.name.clone(), source_file: item.source_file.clone(), references }
}

/// The table entry of an enum.
pub fn enum_entry(item: &RustEnum) -> (r: TypeEntry)
    ensures
        r@ == enum_decl(item@),
{
    let mut references: Vec<String> = Vec::new();
    let mut i: usize = 0;
    while i < item.variants.len()
        invariant
            i <= item.variants@.len(),
            references.deep_view() == named_in_variants(item@.variants, i as nat),
        decreases item.variants@.len() - i,
    {
        match &item.variants[i].data {
            VariantData::Unit => {},
            VariantData::Tuple(types) => {
                collect_type_names(types, &mut references);
            },
            VariantData::Struct(fields) => {
                collect_field_names(fields, &mut references);
            },
        }
        i += 1;
    }
    TypeEntry { name: item.name.clone(), source_file: item.source_file.clone(), references }
}

/// The table of the exported types: the structs, then the enums.
pub fn type_table(structs: &Vec<RustStruct>, enums: &Vec<RustEnum>) -> (r: Vec<TypeEntry>)
    ensures
        r.deep_view() == table_of(structs.deep_view(), enums.deep_view()),
{
    let mut table: Vec<TypeEntry> = Vec::new();
    let mut i: usize = 0;
    while i < structs.len()
        invariant
            i <= structs@.len(),
            table@.len() == i,
            forall|j: int| 0 <= j < i ==> (#[trigger] table@[j])@ == struct_decl(structs@[j]@),
        decreases structs@.len() - i,
    {
        table.push(struct_entry(&structs[i]));
        i += 1;
    }
    let mut k: usize = 0;
    while k < enums.len()
        invariant
            k <= enums@.len(),
            table@.len() == structs@.len() + k,
            forall|j: int|
                0 <= j < structs@.len() ==> (#[trigger] table@[j])@ == struct_decl(structs@[j]@),
            forall|j: int|
                0 <= j < k ==> (#[trigger] table@[structs@.len() + j])@ == enum_decl(enums@[j]@),
        decreases enums@.len() - k,
    {
        table.push(enum_entry(&enums[k]));
        k += 1;
    }
    proof {
        let wanted = table_of(structs.deep_view(), enums.deep_view());
        assert forall|i: int| 0 <= i < wanted.len() implies table.deep_view()[i] == wanted[i] by {
            if i >= structs@.len() {
                let j = i - structs@.len();
                assert(table@[structs@.len() + j]@ == enum_decl(enums@[j]@));
            }
        }
    }
    table
}

/// The root of a command.
pub fn command_root(command: &TauriCommand) -> (r: Root)
    ensures
        r@ == root_of(command@),
{
    let mut references: Vec<String> = Vec::new();
    let mut i: usize = 0;
    while i < command.args.len()
        invariant
            i <= command.args@.len(),
            references.deep_view() == named_in_params(command@.args, i as nat),
        decreases command.args@.len() - i,
    {
        collect_names(&command.args[i].ty, &mut references);
        i += 1;
    }
    if let Some(ty) = &command.return_type {
        collect_names(ty, &mut references);
    }
    Root { source_file: command.source_file.clone(), references }
}

/// The roots of the commands, in their order.
pub fn command_roots(commands: &Vec<TauriCommand>) -> (r: Vec<Root>)
    ensures
        r.deep_view() == roots_of(commands.deep_view()),
{
    let mut roots: Vec<Root> = Vec::new();
    let mut i: usize = 0;
    while i < commands.len()
        invariant
            i <= commands@.len(),
            roots@.len() == i,
            forall|j: int| 0 <= j < i ==> (#[trigger] roots@[j])@ == root_of(commands@[j]@),
        decreases commands@.len() - i,
    {
        roots.push(command_root(&commands[i]));
        i += 1;
    }
    roots
}

fn find_first(table: &Vec<TypeEntry>, name: &str, file: Option<&str>) -> (r: Option<usize>)
    ensures
        match r {
            Some(i) => first_match(table.deep_view(), name@, file.deep_view()) == Some(i as int)
                && i < table@.len(),
            None => first_match(table.deep_view(), name@, file.deep_view()) is None,
        },
{
    let ghost hits = matches_at(table.deep_view(), name@, file.deep_view());
    let mut i: usize = 0;
    while i < table.len()
        invariant
            i <= table@.len(),
            hits == matches_at(table.deep_view(), name@, file.deep_view()),
            forall|j: int| 0 <= j < i ==> hits[j] is None,
        decreases table@.len() - i,
    {
        let in_file = match file {
            Some(f) => str_eq(table[i].source_file.as_str(), f),
            None => true,
        };
        if str_eq(table[i].name.as_str(), name) && in_file {
            proof {
                lemma_first_some_at(hits, i as int);
            }
            return Some(i);
        }
        i += 1;
    }
    proof {
        lemma_first_some_none(hits);
    }
    None
}

/// The entry that a name stands for, seen from a file.
pub fn lookup_entry(table: &Vec<TypeEntry>, resolver: &ModuleResolver, name: &str, from_file: &str) -> (r:
    Option<usize>)
    ensures
        match r {
            Some(i) => lookup(table.deep_view(), resolver@, name@, from_file@) == Some(i as int)
                && i < table@.len(),
            None => lookup(table.deep_view(), resolver@, name@, from_file@) is None,
        },
{
    let preferred = match resolver.resolve_type(name, from_file) {
        ResolutionResult::Found(file) => find_first(table, name, Some(file.as_str())),
        _ => None,
    };
    if preferred.is_some() {
        preferred
    } else {
        find_first(table, name, None)
    }
}

/// One step of discovery: an entry of the table, and the root from whose
/// file its name was looked up.
#[derive(Debug, Clone, Copy, PartialEq, Eq)]
pub struct Discovery {
    /// The index of the entry in the table.
    pub entry: usize,
    /// The index of the root.
    pub root: usize,
}

/// Whether a name in the signature of the root stands for the entry.
pub open spec fn root_refers(
    roots: Seq<RootModel>,
    table: Seq<Decl>,
    w: Workspace,
    root: int,
    entry: int,
) -> bool {
    0 <= root < roots.len() && exists|m: int|
        0 <= m < roots[root].refs.len() && lookup(
            table,
            w,
            #[trigger] roots[root].refs[m],
            roots[root].file,
        ) == Some(entry)
}

/// Whether a name in the entry `from`, seen from the file of the root, stands
/// for the entry.
pub open spec fn entry_refers(
    roots: Seq<RootModel>,
    table: Seq<Decl>,
    w: Workspace,
    root: int,
    from: int,
    entry: int,
) -> bool {
    0 <= root < roots.len() && 0 <= from < table.len() && exists|m: int|
        0 <= m < table[from].refs.len() && lookup(
            table,
            w,
            #[trigger] table[from].refs[m],
            roots[root].file,
        ) == Some(entry)
}

/// Whether the entry is among the discoveries.
pub open spec fn listed(order: Seq<Discovery>, entry: int) -> bool {
    exists|k: int| 0 <= k < order.len() && (#[trigger] order[k]).entry == entry
}

/// Whether discovery `k` has a reason: its root refers to the entry, or an
/// entry discovered earlier from the same root does.
pub open spec fn justified(
    order: Seq<Discovery>,
    roots: Seq<RootModel>,
    table: Seq<Decl>,
    w: Workspace,
    k: int,
) -> bool {
    root_refers(roots, table, w, order[k].root as int, order[k].entry as int) || exists|p: int|
        0 <= p < k && (#[trigger] order[p]).root == order[k].root && entry_refers(
            roots,
            table,
            w,
            order[k].root as int,
            order[p].entry as int,
            order[k].entry as int,
        )
}

/// Whether the discoveries are the reachable entries in an order of
/// discovery: each is an entry of the table and occurs once; what a root
/// refers to is among them; what one of them refers to, seen from the file of
/// its root, is among them; and each has a reason that comes before it.
pub open spec fn is_reachable_order(
    order: Seq<Discovery>,
    roots: Seq<RootModel>,
    table: Seq<Decl>,
    w: Workspace,
) -> bool {
    &&& forall|k: int|
        0 <= k < order.len() ==> (#[trigger] order[k]).entry < table.len() && order[k].root
            < roots.len()
    &&& forall|a: int, b: int|
        0 <= a < b < order.len() ==> (#[trigger] order[a]).entry != (#[trigger] order[b]).entry
    &&& forall|c: int, i: int| #[trigger] root_refers(roots, table, w, c, i) ==> listed(order, i)
    &&& forall|k: int, i: int|
        0 <= k < order.len() && #[trigger] entry_refers(
            roots,
            table,
            w,
            order[k].root as int,
            order[k].entry as int,
            i,
        ) ==> listed(order, i)
    &&& forall|k: int| 0 <= k < order.len() ==> #[trigger] justified(order, roots, table, w, k)
}

/// The discoveries after one more name was looked up from the file of a
/// root: where the name stands for an entry that is not among them yet, that
/// entry is added.
pub open spec fn discovered(
    order: Seq<Discovery>,
    roots: Seq<RootModel>,
    table: Seq<Decl>,
    w: Workspace,
    name: Seq<char>,
    root: int,
) -> Seq<Discovery> {
    match lookup(table, w, name, roots[root].file) {
        Some(j) => if listed(order, j) {
            order
        } else {
            order.push(Discovery { entry: j as usize, root: root as usize })
        },
        None => order,
    }
}

/// The discoveries after the first `n` of the names were looked up, one after
/// the other.
pub open spec fn discovered_all(
    order: Seq<Discovery>,
    roots: Seq<RootModel>,
    table: Seq<Decl>,
    w: Workspace,
    names: Seq<Seq<char>>,
    n: nat,
    root: int,
) -> Seq<Discovery>
    decreases n,
{
    if n == 0 || n > names.len() {
        order
    } else {
        discovered(
            discovered_all(order, roots, table, w, names, (n - 1) as nat, root),
            roots,
            table,
            w,
            names[n - 1],
            root,
        )
    }
}

/// The discoveries after the names of the first `n` roots were looked up.
pub open spec fn roots_discovered(roots: Seq<RootModel>, table: Seq<Decl>, w: Workspace, n: nat) -> Seq<
    Discovery,
>
    decreases n,
{
    if n == 0 || n > roots.len() {
        Seq::empty()
    } else {
        discovered_all(
            roots_discovered(roots, table, w, (n - 1) as nat),
            roots,
            table,
            w,
            roots[n - 1].refs,
            roots[n - 1].refs.len(),
            n - 1,
        )
    }
}

/// The discoveries after those from position `pos` on were followed, each in
/// its turn: the names of its entry are looked up from the file of its root.
/// At most `steps` discoveries are followed.
pub open spec fn followed(
    order: Seq<Discovery>,
    roots: Seq<RootModel>,
    table: Seq<Decl>,
    w: Workspace,
    pos: nat,
    steps: nat,
) -> Seq<Discovery>
    decreases steps,
{
    if steps == 0 || pos >= order.len() {
        order
    } else {
        let current = order[pos as int];
        let names = table[current.entry as int].refs;
        followed(
            discovered_all(order, roots, table, w, names, names.len(), current.root as int),
            roots,
            table,
            w,
            pos + 1,
            (steps - 1) as nat,
        )
    }
}

/// The reachable entries in the order of discovery: first what the roots
/// refer to, root by root and name by name; then, discovery by discovery,
/// what the discovered entries refer to. No entry is followed twice, so one
/// step for each entry of the table is enough.
pub open spec fn reachable_order(roots: Seq<RootModel>, table: Seq<Decl>, w: Workspace) -> Seq<
    Discovery,
> {
    followed(roots_discovered(roots, table, w, roots.len()), roots, table, w, 0, table.len())
}

/// An entry that no root and no entry refers to, from the file of any root,
/// is not among the reachable ones.
pub proof fn law_unreferenced_is_absent(
    order: Seq<Discovery>,
    roots: Seq<RootModel>,
    table: Seq<Decl>,
    w: Workspace,
    entry: int,
)
    requires
        is_reachable_order(order, roots, table, w),
        forall|c: int| !root_refers(roots, table, w, c, entry),
        forall|c: int, from: int| !entry_refers(roots, table, w, c, from, entry),
    ensures
        !listed(order, entry),
{
    if listed(order, entry) {
        let k = choose|k: int| 0 <= k < order.len() && (#[trigger] order[k]).entry == entry;
        assert(justified(order, roots, table, w, k));
    }
}

/// What a root refers to is reachable, and so is what a reachable entry
/// refers to, seen from the file of the root that led to it.
pub proof fn law_references_are_reachable(
    order: Seq<Discovery>,
    roots: Seq<RootModel>,
    table: Seq<Decl>,
    w: Workspace,
    root: int,
    k: int,
    entry: int,
)
    requires
        is_reachable_order(order, roots, table, w),
    ensures
        root_refers(roots, table, w, root, entry) ==> listed(order, entry),
        0 <= k < order.len() && entry_refers(
            roots,
            table,
            w,
            order[k].root as int,
            order[k].entry as int,
            entry,
        ) ==> listed(order, entry),
{
}

/// The number of entries not yet marked.
pub open spec fn unvisited(visited: Seq<bool>) -> nat
    decreases visited.len(),
{
    if visited.len() == 0 {
        0
    } else if visited.last() {
        unvisited(visited.drop_last())
    } else {
        unvisited(visited.drop_last()) + 1
    }
}

/// Marking an entry that was not marked leaves one fewer.
pub proof fn lemma_mark(visited: Seq<bool>, j: int)
    requires
        0 <= j < visited.len(),
        !visited[j],
    ensures
        unvisited(visited.update(j, true)) + 1 == unvisited(visited),
    decreases visited.len(),
{
    let after = visited.update(j, true);
    if j == visited.len() - 1 {
        assert(after.drop_last() =~= visited.drop_last());
    } else {
        lemma_mark(visited.drop_last(), j);
        assert(after.drop_last() =~= visited.drop_last().update(j, true));
    }
}

/// Whether the marks and the discoveries agree: the discoveries are entries
/// of the table, each once, and an entry is marked exactly when it is among
/// them.
pub open spec fn consistent(visited: Seq<bool>, order: Seq<Discovery>, entries: nat, roots: nat) -> bool {
    &&& visited.len() == entries
    &&& order.len() + unvisited(visited) == entries
    &&& forall|k: int|
        0 <= k < order.len() ==> (#[trigger] order[k]).entry < entries && order[k].root < roots
    &&& forall|a: int, b: int|
        0 <= a < b < order.len() ==> (#[trigger] order[a]).entry != (#[trigger] order[b]).entry
    &&& forall|i: int| 0 <= i < entries ==> (#[trigger] visited[i] <==> listed(order, i))
}

/// Whether what the name stands for, seen from the file, is marked.
pub open spec fn hit(
    table: Seq<Decl>,
    w: Workspace,
    name: Seq<char>,
    file: Seq<char>,
    visited: Seq<bool>,
) -> bool {
    match lookup(table, w, name, file) {
        Some(j) => 0 <= j < visited.len() && visited[j],
        None => true,
    }
}

/// Whether the names of the roots before `root`, and the first `names` names
/// of that root, are marked.
pub open spec fn roots_done(
    roots: Seq<RootModel>,
    table: Seq<Decl>,
    w: Workspace,
    visited: Seq<bool>,
    root: int,
    names: int,
) -> bool {
    forall|c: int, m: int|
        0 <= c < roots.len() && 0 <= m < roots[c].refs.len() && (c < root || (c == root && m
            < names)) ==> hit(table, w, #[trigger] roots[c].refs[m], roots[c].file, visited)
}

/// Whether the names of the discoveries before `pos`, and the first `names`
/// names of that discovery, are marked.
pub open spec fn entries_done(
    order: Seq<Discovery>,
    roots: Seq<RootModel>,
    table: Seq<Decl>,
    w: Workspace,
    visited: Seq<bool>,
    pos: int,
    names: int,
) -> bool {
    forall|k: int, m: int|
        0 <= k < order.len() && 0 <= m < table[order[k].entry as int].refs.len() && (k < pos || (k
            == pos && m < names)) ==> hit(
            table,
            w,
            #[trigger] table[order[k].entry as int].refs[m],
            roots[order[k].root as int].file,
            visited,
        )
}

/// Whether every discovery has a reason.
pub open spec fn all_justified(
    order: Seq<Discovery>,
    roots: Seq<RootModel>,
    table: Seq<Decl>,
    w: Workspace,
) -> bool {
    forall|k: int| 0 <= k < order.len() ==> #[trigger] justified(order, roots, table, w, k)
}

/// Looks a name up from the file of a root and, where it stands for an entry
/// not yet marked, marks the entry and appends the discovery.
fn discover(
    table: &Vec<TypeEntry>,
    roots: &Vec<Root>,
    resolver: &ModuleResolver,
    name: &str,
    root: usize,
    visited: &mut Vec<bool>,
    order: &mut Vec<Discovery>,
)
    requires
        root < roots@.len(),
        consistent(old(visited)@, old(order)@, table@.len() as nat, roots@.len() as nat),
    ensures
        consistent(final(visited)@, final(order)@, table@.len() as nat, roots@.len() as nat),
        forall|i: int| 0 <= i < table@.len() && old(visited)@[i] ==> final(visited)@[i],
        hit(table.deep_view(), resolver@, name@, roots@[root as int]@.file, final(visited)@),
        final(order)@ == old(order)@ || (final(order)@ == old(order)@.push(final(order)@.last())
            && final(order)@.last().root == root && lookup(
            table.deep_view(),
            resolver@,
            name@,
            roots@[root as int]@.file,
        ) == Some(final(order)@.last().entry as int)),
        final(order)@ == discovered(
            old(order)@,
            roots.deep_view(),
            table.deep_view(),
            resolver@,
            name@,
            root as int,
        ),
{
    if let Some(j) = lookup_entry(table, resolver, name, roots[root].source_file.as_str()) {
        if !visited[j] {
            let ghost marks = visited@;
            let ghost before = order@;
            visited.set(j, true);
            let found = Discovery { entry: j, root };
            order.push(found);
            proof {
                lemma_mark(marks, j as int);
                assert(order@[before.len() as int] == found);
                assert forall|i: int| 0 <= i < table@.len() implies (#[trigger] visited@[i]
                    <==> listed(order@, i)) by {
                    if i != j && listed(before, i) {
                        let k = choose|k: int|
                            0 <= k < before.len() && (#[trigger] before[k]).entry == i;
                        assert(order@[k].entry == i);
                    }
                }
            }
        }
    }
}

/// The exported types that the roots reach, in the order of discovery: first
/// what the roots refer to, root by root; then, discovery by discovery, what
/// the discovered entries refer to. Names are looked up from the file of the
/// root that led to them.
pub fn reachable(roots: &Vec<Root>, table: &Vec<TypeEntry>, resolver: &ModuleResolver) -> (r: Vec<
    Discovery,
>)
    ensures
        r@ == reachable_order(roots.deep_view(), table.deep_view(), resolver@),
        is_reachable_order(r@, roots.deep_view(), table.deep_view(), resolver@),
{
    let ghost rs = roots.deep_view();
    let ghost ts = table.deep_view();
    let ghost w = resolver@;
    let n = table.len();
    let mut visited: Vec<bool> = Vec::new();
    let mut i: usize = 0;
    while i < n
        invariant
            i <= n,
            visited@.len() == i,
            unvisited(visited@) == i,
            forall|j: int| 0 <= j < i ==> !visited@[j],
        decreases n - i,
    {
        let ghost before = visited@;
        visited.push(false);
        assert(visited@.drop_last() =~= before);
        i += 1;
    }
    let mut order: Vec<Discovery> = Vec::new();
    let mut c: usize = 0;
    while c < roots.len()
        invariant
            c <= roots@.len(),
            n == table@.len(),
            rs == roots.deep_view(),
            ts == table.deep_view(),
            w == resolver@,
            consistent(visited@, order@, n as nat, roots@.len() as nat),
            roots_done(rs, ts, w, visited@, c as int, 0),
            all_justified(order@, rs, ts, w),
            order@ == roots_discovered(rs, ts, w, c as nat),
        decreases roots@.len() - c,
    {
        let root = &roots[c];
        let ghost start = order@;
        let mut m: usize = 0;
        while m < root.references.len()
            invariant
                c < roots@.len(),
                m <= roots@[c as int].references@.len(),
                *root == roots@[c as int],
                n == table@.len(),
                rs == roots.deep_view(),
                ts == table.deep_view(),
                w == resolver@,
                consistent(visited@, order@, n as nat, roots@.len() as nat),
                roots_done(rs, ts, w, visited@, c as int, m as int),
                all_justified(order@, rs, ts, w),
                order@ == discovered_all(
                    start,
                    rs,
                    ts,
                    w,
                    root.references.deep_view(),
                    m as nat,
                    c as int,
                ),
            decreases root.references@.len() - m,
        {
            let ghost before = order@;
            discover(table, roots, resolver, root.references[m].as_str(), c, &mut visited, &mut order);
            proof {
                assert(rs[c as int].refs[m as int] == root.references@[m as int]@);
                assert forall|k: int| 0 <= k < order@.len() implies #[trigger] justified(
                    order@,
                    rs,
                    ts,
                    w,
                    k,
                ) by {
                    if k < before.len() {
                        assert(justified(before, rs, ts, w, k));
                        if !root_refers(rs, ts, w, before[k].root as int, before[k].entry as int) {
                            let p = choose|p: int|
                                0 <= p < k && (#[trigger] before[p]).root == before[k].root
                                    && entry_refers(
                                    rs,
                                    ts,
                                    w,
                                    before[k].root as int,
                                    before[p].entry as int,
                                    before[k].entry as int,
                                );
                            assert(order@[p] == before[p]);
                        }
                    }
                }
            }
            m += 1;
        }
        c += 1;
    }
    let mut pos: usize = 0;
    while pos < order.len()
        invariant
            pos <= order@.len(),
            n == table@.len(),
            rs == roots.deep_view(),
            ts == table.deep_view(),
            w == resolver@,
            consistent(visited@, order@, n as nat, roots@.len() as nat),
            roots_done(rs, ts, w, visited@, roots@.len() as int, 0),
            entries_done(order@, rs, ts, w, visited@, pos as int, 0),
            all_justified(order@, rs, ts, w),
            followed(order@, rs, ts, w, pos as nat, (n - pos) as nat) == reachable_order(
                rs,
                ts,
                w,
            ),
        decreases n - pos,
    {
        let current = order[pos];
        let entry = &table[current.entry];
        let ghost start = order@;
        let mut m: usize = 0;
        while m < entry.references.len()
            invariant
                pos < order@.len(),
                current == order@[pos as int],
                current.entry < table@.len(),
                current.root < roots@.len(),
                *entry == table@[current.entry as int],
                m <= entry.references@.len(),
                n == table@.len(),
                rs == roots.deep_view(),
                ts == table.deep_view(),
                w == resolver@,
                consistent(visited@, order@, n as nat, roots@.len() as nat),
                roots_done(rs, ts, w, visited@, roots@.len() as int, 0),
                entries_done(order@, rs, ts, w, visited@, pos as int, m as int),
                all_justified(order@, rs, ts, w),
                start.len() <= order@.len(),
                start[pos as int] == current,
                order@ == discovered_all(
                    start,
                    rs,
                    ts,
                    w,
                    entry.references.deep_view(),
                    m as nat,
                    current.root as int,
                ),
            decreases entry.references@.len() - m,
        {
            let ghost before = order@;
            discover(
                table,
                roots,
                resolver,
                entry.references[m].as_str(),
                current.root,
                &mut visited,
                &mut order,
            );
            proof {
                assert(ts[current.entry as int].refs[m as int] == entry.references@[m as int]@);
                assert forall|k: int| 0 <= k < order@.len() implies #[trigger] justified(
                    order@,
                    rs,
                    ts,
                    w,
                    k,
                ) by {
                    if k < before.len() {
                        assert(justified(before, rs, ts, w, k));
                        if !root_refers(rs, ts, w, before[k].root as int, before[k].entry as int) {
                            let p = choose|p: int|
                                0 <= p < k && (#[trigger] before[p]).root == before[k].root
                                    && entry_refers(
                                    rs,
                                    ts,
                                    w,
                                    before[k].root as int,
                                    before[p].entry as int,
                                    before[k].entry as int,
                                );
                            assert(order@[p] == before[p]);
                        }
                    } else {
                        assert(order@[pos as int] == before[pos as int]);
                    }
                }
            }
            m += 1;
        }
        pos += 1;
    }
    order
}

/// The exported types that the commands use, directly or through the fields
/// of other exported types, in the order of discovery. An entry is an index
/// into the structs followed by the enums.
pub fn reachable_types(
    commands: &Vec<TauriCommand>,
    structs: &Vec<RustStruct>,
    enums: &Vec<RustEnum>,
    resolver: &ModuleResolver,
) -> (r: Vec<Discovery>)
    ensures
        r@ == reachable_order(
            roots_of(commands.deep_view()),
            table_of(structs.deep_view(), enums.deep_view()),
            resolver@,
        ),
        is_reachable_order(
            r@,
            roots_of(commands.deep_view()),
            table_of(structs.deep_view(), enums.deep_view()),
            resolver@,
        ),
{
    let roots = command_roots(commands);
    let table = type_table(structs, enums);
    reachable(&roots, &table, resolver)
}

} // verus!
