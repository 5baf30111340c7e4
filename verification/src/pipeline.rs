//! The whole transformation: from the texts of the source files to the texts
//! of the generated TypeScript files.

use vstd::prelude::*;
use vstd::string::*;
use crate::config::{Naming, NamingConfig};
use crate::diagnostics::{collect_run_warnings, run_warnings};
use crate::generator::context::{decorated_type_name, GeneratorContext, GeneratorModel};
use crate::generator::declarations::{
    command_declaration, command_text, enum_declaration, enum_text, interface_declaration,
    interface_text, quote, quoted,
};
use crate::models::command::{EntryPoint, TauriCommand};
use crate::models::types::{ExportedEnum, ExportedStruct, RustEnum, RustStruct};
use crate::parser::command_parser::commands_of;
use crate::parser::file_parser::extract_file;
use crate::parser::type_parser::{exported_enums, exported_structs};
use crate::reachability::{
    command_roots, is_reachable_order, reachable, reachable_order, roots_of, table_of, type_table,
    Decl, Discovery, Root, RootModel, };
use crate::reader::lower::read_file;
use crate::reader::parsed::parsed_items;
use crate::resolver::{with_file, ModuleResolver, Workspace};
use crate::seqs::lemma_deep_view_empty;
use crate::text::{has_text, join, joined};

verus! {

/// A source file: its path and its text.
#[derive(Debug)]
pub struct SourceFile {
    pub path: String,
    pub content: String,
    /// Whether the text is the output of macro expansion.
    pub expanded: bool,
}

/// The model of a source file.
pub struct SourceModel {
    pub path: Seq<char>,
    pub content: Seq<char>,
    pub expanded: bool,
}

impl View for SourceFile {
    type V = SourceModel;

    open spec fn view(&self) -> SourceModel {
        SourceModel { path: self.path@, content: self.content@, expanded: self.expanded }
    }
}

impl DeepView for SourceFile {
    type V = SourceModel;

    open spec fn deep_view(&self) -> SourceModel {
        self@
    }
}

/// A source file that is not valid Rust.
#[derive(Debug)]
pub struct GenerateError {
    /// The path of the file.
    pub file: String,
    /// What the parser reports.
    pub message: String,
}

/// What the source files declare.
#[derive(Debug)]
pub struct Analysis {
    /// The commands of all files, file by file.
    pub commands: Vec<TauriCommand>,
    /// The exported structs of all files, file by file.
    pub structs: Vec<RustStruct>,
    /// The exported enums of all files, file by file.
    pub enums: Vec<RustEnum>,
    /// The scopes of all files.
    pub resolver: ModuleResolver,
}

/// The model of an analysis.
pub struct AnalysisModel {
    pub commands: Seq<EntryPoint>,
    pub structs: Seq<ExportedStruct>,
    pub enums: Seq<ExportedEnum>,
    pub workspace: Workspace,
}

impl View for Analysis {
    type V = AnalysisModel;

    open spec fn view(&self) -> AnalysisModel {
        AnalysisModel {
            commands: self.commands.deep_view(),
            structs: self.structs.deep_view(),
            enums: self.enums.deep_view(),
            workspace: self.resolver@,
        }
    }
}

/// Whether the first `n` files are valid Rust.
pub open spec fn all_parse(sources: Seq<SourceModel>, n: int) -> bool {
    forall|i: int| 0 <= i < n ==> parsed_items((#[trigger] sources[i]).content) is Some
}

/// The analysis before any file was read.
pub open spec fn empty_analysis() -> AnalysisModel {
    AnalysisModel {
        commands: Seq::empty(),
        structs: Seq::empty(),
        enums: Seq::empty(),
        workspace: Workspace {
            files: Map::empty(),
            definitions: Seq::empty(),
            module_to_file: Map::empty(),
        },
    }
}

/// The analysis after one more file was read: its commands and its exported
/// types are added, and its scope unless it is the output of macro expansion.
pub open spec fn analysis_with(before: AnalysisModel, source: SourceModel, base: Seq<char>) -> AnalysisModel {
    match parsed_items(source.content) {
        Some(items) => AnalysisModel {
            commands: before.commands + commands_of(items, source.path),
            structs: before.structs + exported_structs(items, source.path, source.expanded),
            enums: before.enums + exported_enums(items, source.path, source.expanded),
            workspace: if source.expanded {
                before.workspace
            } else {
                with_file(before.workspace, source.path, items, base)
            },
        },
        None => before,
    }
}

/// The analysis of the first `n` files.
pub open spec fn analysis_of(sources: Seq<SourceModel>, n: nat, base: Seq<char>) -> AnalysisModel
    decreases n,
{
    if n == 0 || n > sources.len() {
        empty_analysis()
    } else {
        analysis_with(analysis_of(sources, (n - 1) as nat, base), sources[n - 1], base)
    }
}

/// Reads the source files in their order. Fails at the first file that is
/// not valid Rust, and names it.
pub fn analyze(sources: &Vec<SourceFile>, base_path: &str) -> (r: Result<
    Analysis,
    GenerateError,
>)
    ensures
        match r {
            Ok(analysis) => all_parse(sources.deep_view(), sources@.len() as int) && analysis@
                == analysis_of(sources.deep_view(), sources@.len() as nat, base_path@),
            Err(error) => exists|i: int|
                0 <= i < sources@.len() && all_parse(sources.deep_view(), i) && parsed_items(
                    #[trigger] sources@[i].content@,
                ) is None && error.file@ == sources@[i].path@,
        },
{
    let mut analysis = Analysis {
        commands: Vec::new(),
        structs: Vec::new(),
        enums: Vec::new(),
        resolver: ModuleResolver::new(),
    };
    proof {
        lemma_deep_view_empty(analysis.commands);
        lemma_deep_view_empty(analysis.structs);
        lemma_deep_view_empty(analysis.enums);
    }
    let ghost all = sources.deep_view();
    let mut i: usize = 0;
    while i < sources.len()
        invariant
            i <= sources@.len(),
            all == sources.deep_view(),
            all_parse(all, i as int),
            analysis@ == analysis_of(all, i as nat, base_path@),
        decreases sources@.len() - i,
    {
        let source = &sources[i];
        let path = source.path.as_str();
        match read_file(source.content.as_str()) {
            Err(error) => {
                return Err(GenerateError { file: source.path.clone(), message: error.message });
            },
            Ok(file) => {
                let mut found = extract_file(&file, path, source.expanded);
                append_all(&mut analysis.commands, &mut found.commands);
                append_all(&mut analysis.structs, &mut found.structs);
                append_all(&mut analysis.enums, &mut found.enums);
                if !source.expanded {
                    analysis.resolver.add_file(path, &file, base_path);
                }
            },
        }
        i += 1;
    }
    Ok(analysis)
}

/// Moves the elements of `more` to the end of `all`.
fn append_all<T: DeepView>(all: &mut Vec<T>, more: &mut Vec<T>)
    ensures
        final(all).deep_view() == old(all).deep_view() + old(more).deep_view(),
{
    all.append(more);
}

/// The names of the reachable types, in the order of discovery.
pub open spec fn reachable_names(order: Seq<Discovery>, table: Seq<Decl>) -> Seq<Seq<char>> {
    Seq::new(order.len(), |k: int| table[order[k].entry as int].name)
}

/// The context of generation: the naming, and the reachable types as the
/// declared types.
pub open spec fn context_of(naming: Naming, order: Seq<Discovery>, table: Seq<Decl>) -> GeneratorModel {
    GeneratorModel { naming, custom_types: reachable_names(order, table).to_set() }
}

/// The declaration of the type at an index of the table: an interface for a
/// struct, a type alias for an enum.
pub open spec fn declaration_text(
    structs: Seq<ExportedStruct>,
    enums: Seq<ExportedEnum>,
    entry: int,
    ctx: GeneratorModel,
) -> Seq<char> {
    if 0 <= entry < structs.len() {
        interface_text(structs[entry], ctx)
    } else if structs.len() <= entry < structs.len() + enums.len() {
        enum_text(enums[entry - structs.len()], ctx)
    } else {
        Seq::empty()
    }
}

/// The declarations of the reachable types, in the order of discovery.
pub open spec fn declaration_texts(
    order: Seq<Discovery>,
    structs: Seq<ExportedStruct>,
    enums: Seq<ExportedEnum>,
    ctx: GeneratorModel,
) -> Seq<Seq<char>> {
    Seq::new(order.len(), |k: int| declaration_text(structs, enums, order[k].entry as int, ctx))
}

/// Blocks of text as a file: a blank line between two blocks and a line end
/// after the last; nothing where there is no block.
pub open spec fn blocks_text(blocks: Seq<Seq<char>>) -> Seq<char> {
    if blocks.len() == 0 {
        Seq::empty()
    } else {
        joined(blocks, "\n\n"@) + "\n"@
    }
}

/// The text of the generated types file.
pub open spec fn types_file_text(
    order: Seq<Discovery>,
    structs: Seq<ExportedStruct>,
    enums: Seq<ExportedEnum>,
    ctx: GeneratorModel,
) -> Seq<char> {
    blocks_text(declaration_texts(order, structs, enums, ctx))
}

/// The names among the first `n` references of a root that are imported
/// after `before`: those of declared types that were not imported yet.
pub open spec fn imports_with(
    before: Seq<Seq<char>>,
    refs: Seq<Seq<char>>,
    n: nat,
    declared: Set<Seq<char>>,
) -> Seq<Seq<char>>
    decreases n,
{
    if n == 0 || n > refs.len() {
        before
    } else {
        let so_far = imports_with(before, refs, (n - 1) as nat, declared);
        if declared.contains(refs[n - 1]) && !so_far.contains(refs[n - 1]) {
            so_far.push(refs[n - 1])
        } else {
            so_far
        }
    }
}

/// The names that the wrappers of the first `n` commands import: each
/// declared type that a signature refers to, once, in the order of first use.
pub open spec fn imported_names(roots: Seq<RootModel>, n: nat, declared: Set<Seq<char>>) -> Seq<
    Seq<char>,
>
    decreases n,
{
    if n == 0 || n > roots.len() {
        Seq::empty()
    } else {
        imports_with(
            imported_names(roots, (n - 1) as nat, declared),
            roots[n - 1].refs,
            roots[n - 1].refs.len(),
            declared,
        )
    }
}

/// The names as they are generated.
pub open spec fn decorated_names(names: Seq<Seq<char>>, naming: Naming) -> Seq<Seq<char>> {
    Seq::new(names.len(), |i: int| decorated_type_name(naming, names[i]))
}

/// The line that imports the types; nothing where none is imported.
pub open spec fn import_line(names: Seq<Seq<char>>, naming: Naming, types_module: Seq<char>) -> Seq<
    char,
> {
    if names.len() == 0 {
        Seq::empty()
    } else {
        "import type { "@ + joined(decorated_names(names, naming), ", "@) + " } from "@ + quoted(
            types_module,
        ) + ";\n"@
    }
}

/// The wrappers of the commands, in their order.
pub open spec fn command_texts(commands: Seq<EntryPoint>, ctx: GeneratorModel) -> Seq<Seq<char>> {
    Seq::new(commands.len(), |i: int| command_text(commands[i], ctx))
}

/// The text of the generated commands file: the import of `invoke`, the
/// import of the types that the wrappers use, and the wrappers.
pub open spec fn commands_file_text(
    commands: Seq<EntryPoint>,
    ctx: GeneratorModel,
    types_module: Seq<char>,
) -> Seq<char> {
    "import { invoke } from \"@tauri-apps/api/core\";\n"@ + import_line(
        imported_names(roots_of(commands), commands.len(), ctx.custom_types),
        ctx.naming,
        types_module,
    ) + "\n"@ + blocks_text(command_texts(commands, ctx))
}

/// The types file declares the reachable types and no other: one block for
/// each discovery, in the order of discovery, and no type twice.
pub proof fn law_types_file_declares_the_reachable_types(
    order: Seq<Discovery>,
    structs: Seq<ExportedStruct>,
    enums: Seq<ExportedEnum>,
    roots: Seq<RootModel>,
    w: Workspace,
    ctx: GeneratorModel,
)
    requires
        is_reachable_order(order, roots, table_of(structs, enums), w),
    ensures
        types_file_text(order, structs, enums, ctx) == blocks_text(
            declaration_texts(order, structs, enums, ctx),
        ),
        declaration_texts(order, structs, enums, ctx).len() == order.len(),
        forall|k: int|
            0 <= k < order.len() ==> #[trigger] declaration_texts(order, structs, enums, ctx)[k]
                == declaration_text(structs, enums, order[k].entry as int, ctx),
        forall|a: int, b: int|
            0 <= a < b < order.len() ==> (#[trigger] order[a]).entry != (#[trigger] order[b]).entry,
        forall|k: int|
            0 <= k < order.len() ==> (#[trigger] order[k]).entry < structs.len() + enums.len(),
        order.len() == 0 ==> types_file_text(order, structs, enums, ctx) == Seq::<char>::empty(),
{
    assert(table_of(structs, enums).len() == structs.len() + enums.len());
}

/// What generation yields.
#[derive(Debug)]
pub struct Generated {
    /// The text of the types file.
    pub types: String,
    /// The text of the commands file.
    pub commands: String,
    /// The reachable types in the order of discovery, as indices into the
    /// structs followed by the enums of the analysis.
    pub order: Vec<Discovery>,
    /// What became `unknown` and which references were ambiguous.
    pub warnings: Vec<String>,
}

/// Joins blocks of text into the text of a file.
fn blocks(parts: &Vec<String>) -> (r: String)
    ensures
        r@ == blocks_text(parts.deep_view()),
{
    if parts.len() == 0 {
        String::new()
    } else {
        let mut r = join(parts, "\n\n");
        r.append("\n");
        r
    }
}

/// The names that the wrappers import.
fn imports(roots: &Vec<Root>, ctx: &GeneratorContext) -> (r: Vec<String>)
    ensures
        r.deep_view() == imported_names(
            roots.deep_view(),
            roots@.len() as nat,
            ctx@.custom_types,
        ),
{
    let mut names: Vec<String> = Vec::new();
    let ghost declared = ctx@.custom_types;
    let mut c: usize = 0;
    while c < roots.len()
        invariant
            c <= roots@.len(),
            declared == ctx@.custom_types,
            names.deep_view() == imported_names(roots.deep_view(), c as nat, declared),
        decreases roots@.len() - c,
    {
        let root = &roots[c];
        let ghost before = names.deep_view();
        let mut m: usize = 0;
        while m < root.references.len()
            invariant
                m <= root.references@.len(),
                declared == ctx@.custom_types,
                names.deep_view() == imports_with(
                    before,
                    root.references.deep_view(),
                    m as nat,
                    declared,
                ),
            decreases root.references@.len() - m,
        {
            let name = root.references[m].as_str();
            if ctx.is_custom_type(name) && !has_text(&names, name) {
                let copy = root.references[m].clone();
                names.push(copy);
            }
            m += 1;
        }
        c += 1;
    }
    names
}

/// Generates the texts for an analysis: looks for the reachable types,
/// declares them in the order of discovery, and wraps every command.
pub fn render(analysis: &Analysis, naming: NamingConfig, types_module: &str) -> (r: Generated)
    ensures
        r.order@ == reachable_order(
            roots_of(analysis@.commands),
            table_of(analysis@.structs, analysis@.enums),
            analysis@.workspace,
        ),
        is_reachable_order(
            r.order@,
            roots_of(analysis@.commands),
            table_of(analysis@.structs, analysis@.enums),
            analysis@.workspace,
        ),
        r.types@ == types_file_text(
            r.order@,
            analysis@.structs,
            analysis@.enums,
            context_of(naming@, r.order@, table_of(analysis@.structs, analysis@.enums)),
        ),
        r.commands@ == commands_file_text(
            analysis@.commands,
            context_of(naming@, r.order@, table_of(analysis@.structs, analysis@.enums)),
            types_module@,
        ),
        r.warnings.deep_view() == run_warnings(
            r.order@,
            analysis@.structs,
            analysis@.enums,
            analysis@.commands,
            roots_of(analysis@.commands),
            table_of(analysis@.structs, analysis@.enums),
            analysis@.workspace,
        ),
{
    let roots = command_roots(&analysis.commands);
    let table = type_table(&analysis.structs, &analysis.enums);
    let order = reachable(&roots, &table, &analysis.resolver);
    let ghost ts = table.deep_view();
    let ghost wanted = context_of(naming@, order@, ts);
    let mut ctx = GeneratorContext::new(naming);
    let mut k: usize = 0;
    while k < order.len()
        invariant
            k <= order@.len(),
            ts == table.deep_view(),
            forall|j: int| 0 <= j < order@.len() ==> (#[trigger] order@[j]).entry < table@.len(),
            ctx@.naming == wanted.naming,
            ctx@.custom_types == reachable_names(order@, ts).take(k as int).to_set(),
        decreases order@.len() - k,
    {
        let entry = order[k].entry;
        ctx.register_type(table[entry].name.as_str());
        proof {
            let names = reachable_names(order@, ts);
            assert(names.take(k + 1) =~= names.take(k as int).push(names[k as int]));
            names.take(k as int).lemma_push_to_set_commute(names[k as int]);
        }
        k += 1;
    }
    proof {
        assert(reachable_names(order@, ts).take(order@.len() as int) =~= reachable_names(
            order@,
            ts,
        ));
    }
    let mut declarations: Vec<String> = Vec::new();
    let mut d: usize = 0;
    while d < order.len()
        invariant
            d <= order@.len(),
            declarations@.len() == d,
            table@.len() == analysis.structs@.len() + analysis.enums@.len(),
            forall|j: int| 0 <= j < order@.len() ==> (#[trigger] order@[j]).entry < table@.len(),
            forall|j: int|
                0 <= j < d ==> (#[trigger] declarations@[j])@ == declaration_text(
                    analysis@.structs,
                    analysis@.enums,
                    order@[j].entry as int,
                    ctx@,
                ),
        decreases order@.len() - d,
    {
        let entry = order[d].entry;
        let text = if entry < analysis.structs.len() {
            interface_declaration(&analysis.structs[entry], &ctx)
        } else {
            enum_declaration(&analysis.enums[entry - analysis.structs.len()], &ctx)
        };
        declarations.push(text);
        d += 1;
    }
    assert(declarations.deep_view() =~= declaration_texts(
        order@,
        analysis@.structs,
        analysis@.enums,
        ctx@,
    ));
    let types = blocks(&declarations);
    let mut wrappers: Vec<String> = Vec::new();
    let mut c: usize = 0;
    while c < analysis.commands.len()
        invariant
            c <= analysis.commands@.len(),
            wrappers@.len() == c,
            forall|j: int|
                0 <= j < c ==> (#[trigger] wrappers@[j])@ == command_text(
                    analysis.commands@[j]@,
                    ctx@,
                ),
        decreases analysis.commands@.len() - c,
    {
        wrappers.push(command_declaration(&analysis.commands[c], &ctx));
        c += 1;
    }
    assert(wrappers.deep_view() =~= command_texts(analysis@.commands, ctx@));
    let imported = imports(&roots, &ctx);
    let mut commands = String::from_str("import { invoke } from \"@tauri-apps/api/core\";\n");
    if imported.len() > 0 {
        let mut decorated: Vec<String> = Vec::new();
        let mut i: usize = 0;
        while i < imported.len()
            invariant
                i <= imported@.len(),
                decorated@.len() == i,
                forall|j: int|
                    0 <= j < i ==> (#[trigger] decorated@[j])@ == decorated_type_name(
                        ctx@.naming,
                        imported@[j]@,
                    ),
            decreases imported@.len() - i,
        {
            decorated.push(ctx.format_type_name(imported[i].as_str()));
            i += 1;
        }
        assert(decorated.deep_view() =~= decorated_names(imported.deep_view(), ctx@.naming));
        commands.append("import type { ");
        let list = join(&decorated, ", ");
        commands.append(list.as_str());
        commands.append(" } from ");
        let module = quote(types_module);
        commands.append(module.as_str());
        commands.append(";\n");
    }
    commands.append("\n");
    let body = blocks(&wrappers);
    commands.append(body.as_str());
    let warnings = collect_run_warnings(
        &order,
        &analysis.structs,
        &analysis.enums,
        &analysis.commands,
        &roots,
        &table,
        &analysis.resolver,
    );
    Generated { types, commands, order, warnings }
}

/// Generates the TypeScript files for the source files of a program.
///
/// Fails at the first file that is not valid Rust, and names it; otherwise
/// the reachable types are declared in the order of discovery and every
/// command gets its wrapper.
pub fn generate(
    sources: &Vec<SourceFile>,
    base_path: &str,
    naming: NamingConfig,
    types_module: &str,
) -> (r: Result<Generated, GenerateError>)
    ensures
        match r {
            Ok(generated) => {
                let analysis = analysis_of(sources.deep_view(), sources@.len() as nat, base_path@);
                let table = table_of(analysis.structs, analysis.enums);
                let ctx = context_of(naming@, generated.order@, table);
                &&& all_parse(sources.deep_view(), sources@.len() as int)
                &&& generated.order@ == reachable_order(
                    roots_of(analysis.commands),
                    table,
                    analysis.workspace,
                )
                &&& is_reachable_order(
                    generated.order@,
                    roots_of(analysis.commands),
                    table,
                    analysis.workspace,
                )
                &&& generated.types@ == types_file_text(
                    generated.order@,
                    analysis.structs,
                    analysis.enums,
                    ctx,
                )
                &&& generated.commands@ == commands_file_text(
                    analysis.commands,
                    ctx,
                    types_module@,
                )
                &&& generated.warnings.deep_view() == run_warnings(
                    generated.order@,
                    analysis.structs,
                    analysis.enums,
                    analysis.commands,
                    roots_of(analysis.commands),
                    table,
                    analysis.workspace,
                )
            },
            Err(error) => exists|i: int|
                0 <= i < sources@.len() && all_parse(sources.deep_view(), i) && parsed_items(
                    #[trigger] sources@[i].content@,
                ) is None && error.file@ == sources@[i].path@,
        },
{
    match analyze(sources, base_path) {
        Ok(analysis) => Ok(render(&analysis, naming, types_module)),
        Err(error) => Err(error),
    }
}

} // verus!
