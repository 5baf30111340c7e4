//! Resolution of type references across files: local declarations, explicit
//! and wildcard imports, relative paths, and ambiguity.
//!
//! A file is named by its `/`-separated path.

use vstd::prelude::*;
use vstd::string::*;
use crate::maps::{NameMap, PathMap};
use crate::paths::{
    file_components, is_normal, is_normal_component, path_segments, split_file_path,
    split_type_path, trim_rs, without_rs,
};
use crate::syntax::{
    lemma_group_view, FileSyntax, ItemSyntax, ItemTree, ImportTree, UseTreeSyntax,
};
use crate::reader::lower::{read_file, ParseError};
use crate::reader::parsed::parsed_items;
use crate::seqs::{
    first_some, lemma_deep_view_empty, lemma_deep_view_push, lemma_first_some_at,
    lemma_first_some_is_an_entry, lemma_first_some_none,
};
use crate::text::{clone_texts, has_text, str_eq};

verus! {

/// The outcome of resolving a type reference.
#[derive(Debug, PartialEq)]
pub enum ResolutionResult {
    /// The one file that declares the type.
    Found(String),
    /// No file declares it.
    NotFound,
    /// Several files declare it, and nothing tells them apart.
    Ambiguous(Vec<String>),
}

/// The model of a resolution outcome.
pub enum Resolution {
    Found(Seq<char>),
    NotFound,
    Ambiguous(Seq<Seq<char>>),
}

impl View for ResolutionResult {
    type V = Resolution;

    open spec fn view(&self) -> Resolution {
        match self {
            ResolutionResult::Found(file) => Resolution::Found(file@),
            ResolutionResult::NotFound => Resolution::NotFound,
            ResolutionResult::Ambiguous(files) => Resolution::Ambiguous(files.deep_view()),
        }
    }
}

/// Whether a declared type is a struct or an enum.
#[derive(Debug, Clone, Copy, PartialEq, Eq)]
pub enum TypeKind {
    Struct,
    Enum,
}

impl DeepView for TypeKind {
    type V = TypeKind;

    open spec fn deep_view(&self) -> TypeKind {
        *self
    }
}

/// What an import brings in.
#[derive(Debug)]
pub struct ImportedType {
    /// The full path of the import, such as `crate`, `internal`, `UserRole`.
    pub path: Vec<String>,
}

impl DeepView for ImportedType {
    type V = Seq<Seq<char>>;

    open spec fn deep_view(&self) -> Seq<Seq<char>> {
        self.path.deep_view()
    }
}

/// The imports and local types of one file.
#[derive(Debug)]
pub struct FileScope {
    /// The module that the file is, such as `crate`, `commands`.
    pub module: Vec<String>,
    /// The types that the file declares, by name.
    pub local_types: NameMap<TypeKind>,
    /// The explicit imports, by the name they have in the file.
    pub imports: NameMap<ImportedType>,
    /// The modules imported with `*`, in the order of the source.
    pub wildcard_imports: Vec<Vec<String>>,
}

/// The model of a file's scope.
pub struct Scope {
    pub module: Seq<Seq<char>>,
    pub local_types: Map<Seq<char>, TypeKind>,
    pub imports: Map<Seq<char>, Seq<Seq<char>>>,
    pub wildcard_imports: Seq<Seq<Seq<char>>>,
}

impl View for FileScope {
    type V = Scope;

    open spec fn view(&self) -> Scope {
        Scope {
            module: self.module.deep_view(),
            local_types: self.local_types@,
            imports: self.imports@,
            wildcard_imports: self.wildcard_imports.deep_view(),
        }
    }
}

impl DeepView for FileScope {
    type V = Scope;

    open spec fn deep_view(&self) -> Scope {
        self@
    }
}

/// The files of a program with their scopes.
#[derive(Debug)]
pub struct ModuleResolver {
    /// The scope of each file.
    pub files: NameMap<FileScope>,
    /// Each declared type with the file that declares it, in the order in
    /// which the files were added.
    pub type_definitions: Vec<(String, String)>,
    /// The file of each module.
    pub module_to_file: PathMap,
}

/// The model of a resolver.
pub struct Workspace {
    pub files: Map<Seq<char>, Scope>,
    pub definitions: Seq<(Seq<char>, Seq<char>)>,
    pub module_to_file: Map<Seq<Seq<char>>, Seq<char>>,
}

impl View for ModuleResolver {
    type V = Workspace;

    open spec fn view(&self) -> Workspace {
        Workspace {
            files: self.files@,
            definitions: self.type_definitions.deep_view(),
            module_to_file: self.module_to_file@,
        }
    }
}

/// Whether the file is known and declares the type.
pub open spec fn declares(w: Workspace, file: Seq<char>, name: Seq<char>) -> bool {
    w.files.contains_key(file) && w.files[file].local_types.contains_key(name)
}

/// The file of a module, where that file declares the type.
pub open spec fn type_in_module(w: Workspace, name: Seq<char>, module: Seq<Seq<char>>) -> Option<
    Seq<char>,
> {
    if w.module_to_file.contains_key(module) && declares(w, w.module_to_file[module], name) {
        Some(w.module_to_file[module])
    } else {
        None
    }
}

/// The outcome for an absolute path: its last segment is the type, the
/// segments before it are the module.
pub open spec fn resolve_absolute(w: Workspace, path: Seq<Seq<char>>) -> Resolution {
    if path.len() < 2 {
        Resolution::NotFound
    } else {
        match type_in_module(w, path.last(), path.drop_last()) {
            Some(file) => Resolution::Found(file),
            None => Resolution::NotFound,
        }
    }
}

/// For each wildcard import, the file it brings the type from, if any.
pub open spec fn wildcard_hits(w: Workspace, name: Seq<char>, wildcards: Seq<Seq<Seq<char>>>) -> Seq<
    Option<Seq<char>>,
> {
    Seq::new(wildcards.len(), |i: int| type_in_module(w, name, wildcards[i]))
}

/// The files that declare the type, each once, in the order of their first
/// declaration of it.
pub open spec fn declaring_files(definitions: Seq<(Seq<char>, Seq<char>)>, name: Seq<char>) -> Seq<
    Seq<char>,
>
    decreases definitions.len(),
{
    if definitions.len() == 0 {
        Seq::empty()
    } else {
        let before = declaring_files(definitions.drop_last(), name);
        if definitions.last().0 == name && !before.contains(definitions.last().1) {
            before.push(definitions.last().1)
        } else {
            before
        }
    }
}

/// Whether two modules have the same parent: their paths are equally long
/// and differ at most in the last segment.
pub open spec fn siblings(a: Seq<Seq<char>>, b: Seq<Seq<char>>) -> bool {
    a.len() == b.len() && forall|i: int| 0 <= i < a.len() - 1 ==> a[i] == b[i]
}

/// Whether the file is known and its module is a sibling of `module`.
pub open spec fn is_sibling_file(w: Workspace, file: Seq<char>, module: Seq<Seq<char>>) -> bool {
    w.files.contains_key(file) && siblings(w.files[file].module, module)
}

/// The files among `files` whose module is a sibling of `module`.
pub open spec fn sibling_files(w: Workspace, files: Seq<Seq<char>>, module: Seq<Seq<char>>) -> Seq<
    Seq<char>,
>
    decreases files.len(),
{
    if files.len() == 0 {
        Seq::empty()
    } else if is_sibling_file(w, files.last(), module) {
        sibling_files(w, files.drop_last(), module).push(files.last())
    } else {
        sibling_files(w, files.drop_last(), module)
    }
}

/// The outcome of looking a name up in the whole program, seen from
/// `module`: the one file that declares it; among several, the one sibling of
/// `module` if there is exactly one; otherwise all of them.
pub open spec fn resolve_by_name(w: Workspace, name: Seq<char>, module: Seq<Seq<char>>) -> Resolution {
    let locations = declaring_files(w.definitions, name);
    if locations.len() == 0 {
        Resolution::NotFound
    } else if locations.len() == 1 {
        Resolution::Found(locations[0])
    } else {
        let near = sibling_files(w, locations, module);
        if near.len() == 1 {
            Resolution::Found(near[0])
        } else {
            Resolution::Ambiguous(locations)
        }
    }
}

/// The outcome for a bare name in a file: a local declaration, then an
/// explicit import, then the wildcard imports in their order, then the whole
/// program.
pub open spec fn resolve_simple(w: Workspace, name: Seq<char>, scope: Scope, from_file: Seq<char>) -> Resolution {
    if scope.local_types.contains_key(name) {
        Resolution::Found(from_file)
    } else if scope.imports.contains_key(name) {
        resolve_absolute(w, scope.imports[name])
    } else {
        match first_some(wildcard_hits(w, name, scope.wildcard_imports)) {
            Some(file) => Resolution::Found(file),
            None => resolve_by_name(w, name, scope.module),
        }
    }
}

/// The path reached from `current` by the segments: `super` drops the last
/// segment and fails at the root, `self` stays, any other segment is added.
pub open spec fn walk(current: Seq<Seq<char>>, segments: Seq<Seq<char>>) -> Option<Seq<Seq<char>>>
    decreases segments.len(),
{
    if segments.len() == 0 {
        Some(current)
    } else if segments[0] == "super"@ {
        if current.len() > 1 {
            walk(current.drop_last(), segments.drop_first())
        } else {
            None
        }
    } else if segments[0] == "self"@ {
        walk(current, segments.drop_first())
    } else {
        walk(current.push(segments[0]), segments.drop_first())
    }
}

/// The absolute path that a qualified path stands for in a module: from the
/// root after a leading `crate`, otherwise from the module itself.
pub open spec fn canonical_path(segments: Seq<Seq<char>>, module: Seq<Seq<char>>) -> Option<
    Seq<Seq<char>>,
> {
    if segments.len() > 0 && segments[0] == "crate"@ {
        walk(seq!["crate"@], segments.drop_first())
    } else {
        walk(module, segments)
    }
}

/// The outcome for a qualified path in a file: where its head is an import,
/// the import's path with the rest appended; otherwise its canonical path.
pub open spec fn resolve_qualified(w: Workspace, segments: Seq<Seq<char>>, scope: Scope) -> Resolution {
    if segments.len() == 0 {
        Resolution::NotFound
    } else if scope.imports.contains_key(segments[0]) {
        resolve_absolute(w, scope.imports[segments[0]] + segments.drop_first())
    } else {
        match canonical_path(segments, scope.module) {
            Some(path) => resolve_absolute(w, path),
            None => Resolution::NotFound,
        }
    }
}

/// The outcome of resolving a type reference written in a file. A file that
/// is not known, and a reference without any segment, give `NotFound`.
pub open spec fn resolve(w: Workspace, type_path: Seq<char>, from_file: Seq<char>) -> Resolution {
    let segments = path_segments(type_path);
    if !w.files.contains_key(from_file) {
        Resolution::NotFound
    } else if segments.len() == 1 {
        resolve_simple(w, segments[0], w.files[from_file], from_file)
    } else {
        resolve_qualified(w, segments, w.files[from_file])
    }
}

/// The components of a file path below a base directory; all of them where
/// the path is not below it.
pub open spec fn relative_components(path: Seq<char>, base: Seq<char>) -> Seq<Seq<char>> {
    let p = file_components(path);
    let b = file_components(base);
    if b.is_prefix_of(p) {
        p.skip(b.len() as int)
    } else {
        p
    }
}

/// Whether a file name stands for the module of its directory.
pub open spec fn is_module_root_file(name: Seq<char>) -> bool {
    name == "mod.rs"@ || name == "lib.rs"@ || name == "main.rs"@
}

/// The module segments that the components of a file path give: each
/// directory and file name without `.rs`, and nothing for `mod.rs`, `lib.rs`
/// and `main.rs`.
pub open spec fn module_segments(components: Seq<Seq<char>>) -> Seq<Seq<char>>
    decreases components.len(),
{
    if components.len() == 0 {
        Seq::empty()
    } else if !is_normal_component(components.last()) || is_module_root_file(components.last()) {
        module_segments(components.drop_last())
    } else {
        module_segments(components.drop_last()).push(without_rs(components.last()))
    }
}

/// The module that a file is, given the directory of the crate root.
pub open spec fn module_of(path: Seq<char>, base: Seq<char>) -> Seq<Seq<char>> {
    seq!["crate"@] + module_segments(relative_components(path, base))
}

/// The imports after a `use` tree was read under a prefix.
pub open spec fn imports_of_tree(
    tree: ImportTree,
    prefix: Seq<Seq<char>>,
    imports: Map<Seq<char>, Seq<Seq<char>>>,
) -> Map<Seq<char>, Seq<Seq<char>>>
    decreases tree, 0nat,
{
    match tree {
        ImportTree::Path(name, rest) => imports_of_tree(*rest, prefix.push(name), imports),
        ImportTree::Name(name) => imports.insert(name, prefix.push(name)),
        ImportTree::Rename(name, alias) => imports.insert(alias, prefix.push(name)),
        ImportTree::Glob => imports,
        ImportTree::Group(items) => imports_of_group(items, items.len(), prefix, imports),
    }
}

/// The imports after the first `n` members of a `use` group were read.
pub open spec fn imports_of_group(
    items: Seq<ImportTree>,
    n: nat,
    prefix: Seq<Seq<char>>,
    imports: Map<Seq<char>, Seq<Seq<char>>>,
) -> Map<Seq<char>, Seq<Seq<char>>>
    decreases items, n,
{
    if n == 0 || n > items.len() {
        imports
    } else {
        imports_of_tree(
            items[n - 1],
            prefix,
            imports_of_group(items, (n - 1) as nat, prefix, imports),
        )
    }
}

/// The modules that a `use` tree imports with `*`, read under a prefix.
pub open spec fn wildcards_of_tree(tree: ImportTree, prefix: Seq<Seq<char>>) -> Seq<Seq<Seq<char>>>
    decreases tree, 0nat,
{
    match tree {
        ImportTree::Path(name, rest) => wildcards_of_tree(*rest, prefix.push(name)),
        ImportTree::Glob => seq![prefix],
        ImportTree::Group(items) => wildcards_of_group(items, items.len(), prefix),
        _ => Seq::empty(),
    }
}

/// The modules that the first `n` members of a `use` group import with `*`.
pub open spec fn wildcards_of_group(items: Seq<ImportTree>, n: nat, prefix: Seq<Seq<char>>) -> Seq<
    Seq<Seq<char>>,
>
    decreases items, n,
{
    if n == 0 || n > items.len() {
        Seq::empty()
    } else {
        wildcards_of_group(items, (n - 1) as nat, prefix) + wildcards_of_tree(items[n - 1], prefix)
    }
}

/// The scope after one more item of the file was read: a `use` adds its
/// imports, a struct or an enum its name. Only the items at the top of the
/// file count.
pub open spec fn scope_with_item(scope: Scope, item: ItemTree) -> Scope {
    match item {
        ItemTree::Use(tree) => Scope {
            imports: imports_of_tree(tree, Seq::empty(), scope.imports),
            wildcard_imports: scope.wildcard_imports + wildcards_of_tree(tree, Seq::empty()),
            ..scope
        },
        ItemTree::Struct(decl) => Scope {
            local_types: scope.local_types.insert(decl.name, TypeKind::Struct),
            ..scope
        },
        ItemTree::Enum(decl) => Scope {
            local_types: scope.local_types.insert(decl.name, TypeKind::Enum),
            ..scope
        },
        _ => scope,
    }
}

/// The scope of a module after the first `n` items of its file were read.
pub open spec fn scope_of(items: Seq<ItemTree>, n: nat, module: Seq<Seq<char>>) -> Scope
    decreases n,
{
    if n == 0 || n > items.len() {
        Scope {
            module,
            local_types: Map::empty(),
            imports: Map::empty(),
            wildcard_imports: Seq::empty(),
        }
    } else {
        scope_with_item(scope_of(items, (n - 1) as nat, module), items[n - 1])
    }
}

/// The type declarations among the first `n` items of a file.
pub open spec fn definitions_in(items: Seq<ItemTree>, n: nat, file: Seq<char>) -> Seq<
    (Seq<char>, Seq<char>),
>
    decreases n,
{
    if n == 0 || n > items.len() {
        Seq::empty()
    } else {
        match items[n - 1] {
            ItemTree::Struct(decl) => definitions_in(items, (n - 1) as nat, file).push(
                (decl.name, file),
            ),
            ItemTree::Enum(decl) => definitions_in(items, (n - 1) as nat, file).push(
                (decl.name, file),
            ),
            _ => definitions_in(items, (n - 1) as nat, file),
        }
    }
}

/// The resolver's knowledge after a file was added: the file's scope, its
/// type declarations after those known before, and its module.
pub open spec fn with_file(w: Workspace, path: Seq<char>, items: Seq<ItemTree>, base: Seq<char>) -> Workspace {
    let module = module_of(path, base);
    Workspace {
        files: w.files.insert(path, scope_of(items, items.len(), module)),
        definitions: w.definitions + definitions_in(items, items.len(), path),
        module_to_file: w.module_to_file.insert(module, path),
    }
}

/// Whether the recorded declarations agree with the scopes: every recorded
/// pair names a known file that declares the type, and every type that a
/// known file declares is recorded with that file.
pub open spec fn is_consistent(w: Workspace) -> bool {
    &&& forall|i: int|
        0 <= i < w.definitions.len() ==> declares(
            w,
            (#[trigger] w.definitions[i]).1,
            w.definitions[i].0,
        )
    &&& forall|file: Seq<char>, name: Seq<char>| #[trigger]
        declares(w, file, name) ==> w.definitions.contains((name, file))
}

/// The types that the scope of a file declares are the ones recorded for it,
/// and every pair recorded for a file names that file.
pub proof fn lemma_scope_agrees_with_definitions(
    items: Seq<ItemTree>,
    n: nat,
    module: Seq<Seq<char>>,
    path: Seq<char>,
)
    ensures
        forall|name: Seq<char>|
            scope_of(items, n, module).local_types.contains_key(name) <==> definitions_in(
                items,
                n,
                path,
            ).contains((name, path)),
        forall|i: int|
            0 <= i < definitions_in(items, n, path).len() ==> (#[trigger] definitions_in(
                items,
                n,
                path,
            )[i]).1 == path,
    decreases n,
{
    if n == 0 || n > items.len() {
    } else {
        lemma_scope_agrees_with_definitions(items, (n - 1) as nat, module, path);
        let before = definitions_in(items, (n - 1) as nat, path);
        let now = definitions_in(items, n, path);
        let scope_before = scope_of(items, (n - 1) as nat, module);
        let scope_now = scope_of(items, n, module);
        assert(scope_now == scope_with_item(scope_before, items[n - 1]));
        let added: Option<Seq<char>> = match items[n - 1] {
            ItemTree::Struct(decl) => Some(decl.name),
            ItemTree::Enum(decl) => Some(decl.name),
            _ => None,
        };
        assert forall|name: Seq<char>|
            scope_now.local_types.contains_key(name) <==> now.contains((name, path)) by {
            if before.contains((name, path)) {
                let k = choose|k: int| 0 <= k < before.len() && before[k] == (name, path);
                assert(now[k] == (name, path));
            }
            if now.contains((name, path)) {
                let k = choose|k: int| 0 <= k < now.len() && now[k] == (name, path);
                if k < before.len() {
                    assert(before[k] == (name, path));
                }
            }
            if added == Some(name) {
                assert(now[before.len() as int] == (name, path));
            }
        }
    }
}

/// Adding a file that was not known keeps the recorded declarations in
/// agreement with the scopes.
pub proof fn law_adding_a_new_file_keeps_consistency(
    w: Workspace,
    path: Seq<char>,
    items: Seq<ItemTree>,
    base: Seq<char>,
)
    requires
        is_consistent(w),
        !w.files.contains_key(path),
    ensures
        is_consistent(with_file(w, path, items, base)),
{
    let module = module_of(path, base);
    let after = with_file(w, path, items, base);
    let added = definitions_in(items, items.len(), path);
    lemma_scope_agrees_with_definitions(items, items.len(), module, path);
    assert forall|i: int| 0 <= i < after.definitions.len() implies declares(
        after,
        (#[trigger] after.definitions[i]).1,
        after.definitions[i].0,
    ) by {
        if i < w.definitions.len() {
            assert(after.definitions[i] == w.definitions[i]);
            assert(declares(w, w.definitions[i].1, w.definitions[i].0));
        } else {
            let k = i - w.definitions.len();
            assert(after.definitions[i] == added[k]);
            assert(added.contains(added[k]));
        }
    }
    assert forall|file: Seq<char>, name: Seq<char>| #[trigger]
        declares(after, file, name) implies after.definitions.contains((name, file)) by {
        if file == path {
            assert(added.contains((name, path)));
            let k = choose|k: int| 0 <= k < added.len() && added[k] == (name, path);
            assert(after.definitions[w.definitions.len() + k] == (name, file));
        } else {
            assert(declares(w, file, name));
            let k = choose|k: int|
                0 <= k < w.definitions.len() && w.definitions[k] == (name, file);
            assert(after.definitions[k] == (name, file));
        }
    }
}

/// The siblings among some files are among those files.
pub proof fn lemma_siblings_are_among(
    w: Workspace,
    files: Seq<Seq<char>>,
    module: Seq<Seq<char>>,
    file: Seq<char>,
)
    requires
        sibling_files(w, files, module).contains(file),
    ensures
        files.contains(file),
    decreases files.len(),
{
    if files.len() > 0 {
        let before = sibling_files(w, files.drop_last(), module);
        let all = sibling_files(w, files, module);
        let k = choose|k: int| 0 <= k < all.len() && all[k] == file;
        if k < before.len() {
            assert(before[k] == file);
            assert(before.contains(file));
            lemma_siblings_are_among(w, files.drop_last(), module, file);
            let q = choose|q: int| 0 <= q < files.drop_last().len() && files.drop_last()[q] == file;
            assert(files[q] == file);
        } else {
            assert(files[files.len() - 1] == file);
        }
    }
}

/// The name that a bare name stands for in the file that is found: for an
/// explicit import the last segment of the imported path, otherwise the name
/// itself.
pub open spec fn declared_name(name: Seq<char>, scope: Scope) -> Seq<char> {
    if !scope.local_types.contains_key(name) && scope.imports.contains_key(name) {
        scope.imports[name].last()
    } else {
        name
    }
}

/// Where the recorded declarations agree with the scopes, the file found for
/// a bare name declares the type, and every file of an ambiguous outcome
/// declares it.
pub proof fn law_found_file_declares(
    w: Workspace,
    name: Seq<char>,
    from_file: Seq<char>,
)
    requires
        is_consistent(w),
        w.files.contains_key(from_file),
    ensures
        resolve_simple(w, name, w.files[from_file], from_file) matches Resolution::Found(file)
            ==> declares(w, file, declared_name(name, w.files[from_file])),
        resolve_simple(w, name, w.files[from_file], from_file) matches Resolution::Ambiguous(
            files,
        ) ==> forall|i: int| 0 <= i < files.len() ==> declares(w, #[trigger] files[i], name),
{
    let scope = w.files[from_file];
    let locations = declaring_files(w.definitions, name);
    law_declaring_files_are_distinct(w.definitions, name);
    assert forall|i: int| 0 <= i < locations.len() implies declares(
        w,
        #[trigger] locations[i],
        name,
    ) by {
        assert(locations.contains(locations[i]));
        assert(w.definitions.contains((name, locations[i])));
        let k = choose|k: int|
            0 <= k < w.definitions.len() && w.definitions[k] == (name, locations[i]);
        assert(declares(w, w.definitions[k].1, w.definitions[k].0));
    }
    if !scope.local_types.contains_key(name) && !scope.imports.contains_key(name) {
        let hits = wildcard_hits(w, name, scope.wildcard_imports);
        if first_some(hits) is Some {
            lemma_first_some_is_an_entry(hits);
        } else if locations.len() > 1 {
            let near = sibling_files(w, locations, scope.module);
            if near.len() == 1 {
                assert(near.contains(near[0]));
                lemma_siblings_are_among(w, locations, scope.module, near[0]);
                let k = choose|k: int| 0 <= k < locations.len() && locations[k] == near[0];
                assert(declares(w, locations[k], name));
            }
        }
    }
}

/// Resolving a reference is a function of the scopes, the reference and the
/// file: two resolutions of the same reference from the same file, with the
/// scopes unchanged, give the same outcome.
pub proof fn law_resolution_is_repeatable(
    w: Workspace,
    type_path: Seq<char>,
    from_file: Seq<char>,
    first: Resolution,
    second: Resolution,
)
    requires
        first == resolve(w, type_path, from_file),
        second == resolve(w, type_path, from_file),
    ensures
        first == second,
{
}

/// The files that declare a type are listed once each, and a file is listed
/// exactly where one of its declarations has the name.
pub proof fn law_declaring_files_are_distinct(
    definitions: Seq<(Seq<char>, Seq<char>)>,
    name: Seq<char>,
)
    ensures
        declaring_files(definitions, name).no_duplicates(),
        forall|file: Seq<char>|
            declaring_files(definitions, name).contains(file) <==> definitions.contains(
                (name, file),
            ),
    decreases definitions.len(),
{
    if definitions.len() > 0 {
        let earlier = definitions.drop_last();
        let last = definitions.last();
        law_declaring_files_are_distinct(earlier, name);
        let before = declaring_files(earlier, name);
        let all = declaring_files(definitions, name);
        assert forall|file: Seq<char>| all.contains(file) <==> definitions.contains(
            (name, file),
        ) by {
            if all.contains(file) {
                let k = choose|k: int| 0 <= k < all.len() && all[k] == file;
                if k < before.len() {
                    assert(before[k] == file);
                    assert(before.contains(file));
                    assert(earlier.contains((name, file)));
                    let q = choose|q: int| 0 <= q < earlier.len() && earlier[q] == (name, file);
                    assert(definitions[q] == (name, file));
                } else {
                    assert(definitions[definitions.len() - 1] == (name, file));
                }
            }
            if definitions.contains((name, file)) {
                let q = choose|q: int| 0 <= q < definitions.len() && definitions[q] == (name, file);
                if q < earlier.len() {
                    assert(earlier[q] == (name, file));
                    assert(earlier.contains((name, file)));
                    assert(before.contains(file));
                }
                if before.contains(file) {
                    let k = choose|k: int| 0 <= k < before.len() && before[k] == file;
                    assert(all[k] == file);
                } else {
                    assert(all[before.len() as int] == file);
                }
            }
        }
    }
}

/// A bare name that the file neither declares nor imports, and that no
/// wildcard import brings in, is looked up in the whole program: declared by
/// several files it is ambiguous and lists them all, unless exactly one of
/// them is a sibling of the file, which is then found.
pub proof fn law_ambiguity(w: Workspace, name: Seq<char>, scope: Scope, from_file: Seq<char>)
    requires
        !scope.local_types.contains_key(name),
        !scope.imports.contains_key(name),
        first_some(wildcard_hits(w, name, scope.wildcard_imports)) is None,
        declaring_files(w.definitions, name).len() >= 2,
    ensures
        sibling_files(w, declaring_files(w.definitions, name), scope.module).len() == 1
            ==> resolve_simple(w, name, scope, from_file) == Resolution::Found(
            sibling_files(w, declaring_files(w.definitions, name), scope.module)[0],
        ),
        sibling_files(w, declaring_files(w.definitions, name), scope.module).len() != 1
            ==> resolve_simple(w, name, scope, from_file) == Resolution::Ambiguous(
            declaring_files(w.definitions, name),
        ),
{
}

/// Whether two modules have the same parent.
pub fn are_siblings(path_a: &Vec<String>, path_b: &Vec<String>) -> (r: bool)
    ensures
        r == siblings(path_a.deep_view(), path_b.deep_view()),
{
    if path_a.len() != path_b.len() {
        return false;
    }
    let n = path_a.len();
    if n == 0 {
        return true;
    }
    let mut i: usize = 0;
    while i < n - 1
        invariant
            n == path_a@.len(),
            n == path_b@.len(),
            0 < n,
            i <= n - 1,
            forall|j: int| 0 <= j < i ==> path_a.deep_view()[j] == path_b.deep_view()[j],
        decreases n - i,
    {
        if !str_eq(path_a[i].as_str(), path_b[i].as_str()) {
            assert(path_a.deep_view()[i as int] != path_b.deep_view()[i as int]);
            return false;
        }
        i += 1;
    }
    true
}

/// The first `n` segments of a path.
fn prefix_of(path: &Vec<String>, n: usize) -> (r: Vec<String>)
    requires
        n <= path@.len(),
    ensures
        r.deep_view() == path.deep_view().take(n as int),
{
    let mut out: Vec<String> = Vec::new();
    let mut i: usize = 0;
    while i < n
        invariant
            i <= n <= path@.len(),
            out@.len() == i,
            forall|j: int| 0 <= j < i ==> out@[j]@ == path@[j]@,
        decreases n - i,
    {
        out.push(path[i].clone());
        i += 1;
    }
    out
}

impl ModuleResolver {
    /// A resolver that knows no file.
    pub fn new() -> (r: Self)
        ensures
            r@ == (Workspace {
                files: Map::empty(),
                definitions: Seq::empty(),
                module_to_file: Map::empty(),
            }),
            is_consistent(r@),
    {
        let r = ModuleResolver {
            files: NameMap::new(),
            type_definitions: Vec::new(),
            module_to_file: PathMap::new(),
        };
        proof {
            lemma_deep_view_empty(r.type_definitions);
        }
        r
    }

    /// The file of a module, where that file declares the type.
    pub fn find_type_in_module(&self, name: &str, module: &Vec<String>) -> (r: Option<
        String,
    >)
        ensures
            r.deep_view() == type_in_module(self@, name@, module.deep_view()),
    {
        if let Some(file_path) = self.module_to_file.get(module) {
            if let Some(scope) = self.files.get(file_path.as_str()) {
                if scope.local_types.contains_key(name) {
                    return Some(file_path.clone());
                }
            }
        }
        None
    }

    /// Resolves an absolute path such as `crate`, `module`, `Type` to a file.
    pub fn resolve_module_path(&self, module: &Vec<String>) -> (r: ResolutionResult)
        ensures
            r@ == resolve_absolute(self@, module.deep_view()),
    {
        let n = module.len();
        if n < 2 {
            return ResolutionResult::NotFound;
        }
        let mod_path = prefix_of(module, n - 1);
        match self.find_type_in_module(module[n - 1].as_str(), &mod_path) {
            Some(file) => ResolutionResult::Found(file),
            None => ResolutionResult::NotFound,
        }
    }

    /// The absolute path that the segments stand for in the scope's module.
    pub fn resolve_canonical_path(&self, segments: &Vec<String>, scope: &FileScope) -> (r: Option<
        Vec<String>,
    >)
        ensures
            r.deep_view() == canonical_path(segments.deep_view(), scope@.module),
    {
        let from_root = segments.len() > 0 && str_eq(segments[0].as_str(), "crate");
        let mut current: Vec<String> = Vec::new();
        let mut i: usize = 0;
        if from_root {
            current.push(String::from_str("crate"));
            i = 1;
            assert(current.deep_view() =~= seq!["crate"@]);
        } else {
            current = clone_texts(&scope.module);
            proof {
                assert(segments.deep_view().skip(0) =~= segments.deep_view());
            }
        }
        while i < segments.len()
            invariant
                i <= segments@.len(),
                walk(current.deep_view(), segments.deep_view().skip(i as int)) == canonical_path(
                    segments.deep_view(),
                    scope@.module,
                ),
            decreases segments@.len() - i,
        {
            let segment = segments[i].as_str();
            proof {
                let rest = segments.deep_view().skip(i as int);
                assert(rest.drop_first() =~= segments.deep_view().skip(i + 1));
            }
            if str_eq(segment, "super") {
                if current.len() > 1 {
                    let ghost before = current.deep_view();
                    current.pop();
                    assert(current.deep_view() =~= before.drop_last());
                } else {
                    return None;
                }
            } else if !str_eq(segment, "self") {
                let ghost before = current;
                let name = segments[i].clone();
                current.push(name);
                proof {
                    lemma_deep_view_push(before, current, name);
                }
            }
            i += 1;
        }
        Some(current)
    }

    /// Resolves a qualified path written in the file with the given scope.
    pub fn resolve_path(&self, segments: &Vec<String>, scope: &FileScope) -> (r: ResolutionResult)
        ensures
            r@ == resolve_qualified(self@, segments.deep_view(), scope@),
    {
        if segments.len() == 0 {
            return ResolutionResult::NotFound;
        }
        if let Some(imported) = scope.imports.get(segments[0].as_str()) {
            let mut full_path = clone_texts(&imported.path);
            let mut i: usize = 1;
            while i < segments.len()
                invariant
                    1 <= i <= segments@.len(),
                    full_path.deep_view() == imported.path.deep_view()
                        + segments.deep_view().drop_first().take(i - 1),
                decreases segments@.len() - i,
            {
                let ghost before = full_path;
                let name = segments[i].clone();
                full_path.push(name);
                proof {
                    lemma_deep_view_push(before, full_path, name);
                }
                i += 1;
            }
            assert(segments.deep_view().drop_first().take(segments@.len() - 1)
                =~= segments.deep_view().drop_first());
            return self.resolve_module_path(&full_path);
        }
        match self.resolve_canonical_path(segments, scope) {
            Some(path) => self.resolve_module_path(&path),
            None => ResolutionResult::NotFound,
        }
    }

    /// The files that declare the type, each once, in the order of their
    /// first declaration of it.
    fn locations_of(&self, name: &str) -> (r: Vec<String>)
        ensures
            r.deep_view() == declaring_files(self@.definitions, name@),
    {
        let mut out: Vec<String> = Vec::new();
        let mut i: usize = 0;
        let ghost all = self.type_definitions.deep_view();
        while i < self.type_definitions.len()
            invariant
                i <= self.type_definitions@.len(),
                all == self.type_definitions.deep_view(),
                out.deep_view() == declaring_files(all.take(i as int), name@),
            decreases self.type_definitions@.len() - i,
        {
            proof {
                let upto = all.take(i + 1);
                assert(upto.drop_last() =~= all.take(i as int));
            }
            if str_eq(self.type_definitions[i].0.as_str(), name) && !has_text(
                &out,
                self.type_definitions[i].1.as_str(),
            ) {
                let file = self.type_definitions[i].1.clone();
                out.push(file);
            }
            i += 1;
        }
        assert(all.take(self.type_definitions@.len() as int) =~= all);
        out
    }

    /// The files among `files` whose module is a sibling of `module`.
    fn siblings_among(&self, files: &Vec<String>, module: &Vec<String>) -> (r: Vec<String>)
        ensures
            r.deep_view() == sibling_files(self@, files.deep_view(), module.deep_view()),
    {
        let mut out: Vec<String> = Vec::new();
        let mut i: usize = 0;
        let ghost all = files.deep_view();
        while i < files.len()
            invariant
                i <= files@.len(),
                all == files.deep_view(),
                out.deep_view() == sibling_files(self@, all.take(i as int), module.deep_view()),
            decreases files@.len() - i,
        {
            proof {
                let upto = all.take(i + 1);
                assert(upto.drop_last() =~= all.take(i as int));
            }
            let near = match self.files.get(files[i].as_str()) {
                Some(scope) => are_siblings(&scope.module, module),
                None => false,
            };
            if near {
                let file = files[i].clone();
                out.push(file);
            }
            i += 1;
        }
        assert(all.take(files@.len() as int) =~= all);
        out
    }

    /// Resolves a bare name written in `from_file`, whose scope is `scope`.
    pub fn resolve_simple_name(&self, name: &str, scope: &FileScope, from_file: &str) -> (r:
        ResolutionResult)
        ensures
            r@ == resolve_simple(self@, name@, scope@, from_file@),
    {
        if scope.local_types.contains_key(name) {
            return ResolutionResult::Found(String::from_str(from_file));
        }
        if let Some(imported) = scope.imports.get(name) {
            return self.resolve_module_path(&imported.path);
        }
        let ghost hits = wildcard_hits(self@, name@, scope@.wildcard_imports);
        let mut i: usize = 0;
        while i < scope.wildcard_imports.len()
            invariant
                i <= scope.wildcard_imports@.len(),
                hits == wildcard_hits(self@, name@, scope@.wildcard_imports),
                !scope@.local_types.contains_key(name@),
                !scope@.imports.contains_key(name@),
                forall|j: int| 0 <= j < i ==> hits[j] is None,
            decreases scope.wildcard_imports@.len() - i,
        {
            if let Some(file) = self.find_type_in_module(name, &scope.wildcard_imports[i]) {
                proof {
                    lemma_first_some_at(hits, i as int);
                }
                return ResolutionResult::Found(file);
            }
            i += 1;
        }
        proof {
            lemma_first_some_none(hits);
        }
        let mut locations = self.locations_of(name);
        if locations.len() == 0 {
            return ResolutionResult::NotFound;
        }
        if locations.len() == 1 {
            let only = locations.pop();
            match only {
                Some(file) => {
                    return ResolutionResult::Found(file);
                },
                None => {
                    return ResolutionResult::NotFound;
                },
            }
        }
        let mut near = self.siblings_among(&locations, &scope.module);
        if near.len() == 1 {
            let only = near.pop();
            match only {
                Some(file) => {
                    return ResolutionResult::Found(file);
                },
                None => {
                    return ResolutionResult::NotFound;
                },
            }
        }
        ResolutionResult::Ambiguous(locations)
    }

    /// The module that a file is, given the directory of the crate root.
    pub fn path_to_module(&self, path: &str, base_path: &str) -> (r: Vec<String>)
        ensures
            r.deep_view() == module_of(path@, base_path@),
    {
        let components = split_file_path(path);
        let base = split_file_path(base_path);
        let mut below = base.len() <= components.len();
        let mut k: usize = 0;
        while below && k < base.len()
            invariant
                k <= base@.len(),
                below ==> base@.len() <= components@.len(),
                below ==> forall|j: int|
                    0 <= j < k ==> base.deep_view()[j] == components.deep_view()[j],
                !below ==> !base.deep_view().is_prefix_of(components.deep_view()),
            decreases base@.len() - k + if below { 1nat } else { 0nat },
        {
            if !str_eq(base[k].as_str(), components[k].as_str()) {
                assert(base.deep_view()[k as int] != components.deep_view()[k as int]);
                below = false;
            } else {
                k += 1;
            }
        }
        let start: usize = if below {
            base.len()
        } else {
            0
        };
        let ghost relative = components.deep_view().skip(start as int);
        assert(relative == relative_components(path@, base_path@));
        let mut parts: Vec<String> = Vec::new();
        parts.push(String::from_str("crate"));
        let mut i: usize = start;
        while i < components.len()
            invariant
                start <= i <= components@.len(),
                relative == components.deep_view().skip(start as int),
                parts.deep_view() == seq!["crate"@] + module_segments(relative.take(i - start)),
            decreases components@.len() - i,
        {
            let c = components[i].as_str();
            proof {
                let upto = relative.take(i - start + 1);
                assert(upto.drop_last() =~= relative.take(i - start));
            }
            if is_normal(c) && !(str_eq(c, "mod.rs") || str_eq(c, "lib.rs") || str_eq(c, "main.rs")) {
                let ghost before = parts;
                let name = trim_rs(c);
                parts.push(name);
                proof {
                    lemma_deep_view_push(before, parts, name);
                }
            }
            i += 1;
        }
        assert(relative.take(components@.len() - start) =~= relative);
        parts
    }

    /// Reads a `use` tree under a prefix into the scope.
    pub fn parse_use_tree(&self, tree: &UseTreeSyntax, scope: &mut FileScope, prefix: Vec<String>)
        ensures
            final(scope)@ == (Scope {
                imports: imports_of_tree(tree@, prefix.deep_view(), old(scope)@.imports),
                wildcard_imports: old(scope)@.wildcard_imports + wildcards_of_tree(
                    tree@,
                    prefix.deep_view(),
                ),
                ..old(scope)@
            }),
        decreases tree,
    {
        let mut prefix = prefix;
        let ghost under = prefix.deep_view();
        match tree {
            UseTreeSyntax::Path(name, rest) => {
                let ghost before = prefix;
                let segment = name.clone();
                prefix.push(segment);
                proof {
                    lemma_deep_view_push(before, prefix, segment);
                }
                self.parse_use_tree(rest, scope, prefix);
            },
            UseTreeSyntax::Name(name) => {
                let ghost before = prefix;
                let segment = name.clone();
                prefix.push(segment);
                proof {
                    lemma_deep_view_push(before, prefix, segment);
                }
                scope.imports.insert(name.clone(), ImportedType { path: prefix });
            },
            UseTreeSyntax::Rename(name, alias) => {
                let ghost before = prefix;
                let segment = name.clone();
                prefix.push(segment);
                proof {
                    lemma_deep_view_push(before, prefix, segment);
                }
                scope.imports.insert(alias.clone(), ImportedType { path: prefix });
            },
            UseTreeSyntax::Glob => {
                scope.wildcard_imports.push(prefix);
                proof {
                    assert(scope@.wildcard_imports =~= old(scope)@.wildcard_imports
                        + wildcards_of_tree(tree@, under));
                }
            },
            UseTreeSyntax::Group(items) => {
                proof {
                    lemma_group_view(*items);
                }
                let mut i: usize = 0;
                while i < items.len()
                    invariant
                        i <= items@.len(),
                        *tree == UseTreeSyntax::Group(*items),
                        under == prefix.deep_view(),
                        scope@ == (Scope {
                            imports: imports_of_group(
                                items.deep_view(),
                                i as nat,
                                under,
                                old(scope)@.imports,
                            ),
                            wildcard_imports: old(scope)@.wildcard_imports + wildcards_of_group(
                                items.deep_view(),
                                i as nat,
                                under,
                            ),
                            ..old(scope)@
                        }),
                    decreases items@.len() - i,
                {
                    proof {
                        assert(tree->Group_0 == *items);
                    }
                    let copy = clone_texts(&prefix);
                    self.parse_use_tree(&items[i], scope, copy);
                    i += 1;
                    assert(scope@.wildcard_imports =~= old(scope)@.wildcard_imports
                        + wildcards_of_group(items.deep_view(), i as nat, under));
                }
            },
        }
    }

    /// Adds a file: reads its imports and the types it declares at its top
    /// level, and records its module.
    pub fn add_file(&mut self, path: &str, file: &FileSyntax, base_path: &str)
        ensures
            final(self)@ == with_file(old(self)@, path@, file@.items, base_path@),
            is_consistent(old(self)@) && !old(self)@.files.contains_key(path@) ==> is_consistent(
                final(self)@,
            ),
    {
        proof {
            if is_consistent(self@) && !self@.files.contains_key(path@) {
                law_adding_a_new_file_keeps_consistency(self@, path@, file@.items, base_path@);
            }
        }
        let module = self.path_to_module(path, base_path);
        let module_copy = clone_texts(&module);
        let mut scope = FileScope {
            module,
            local_types: NameMap::new(),
            imports: NameMap::new(),
            wildcard_imports: Vec::new(),
        };
        let ghost trees = file.items.deep_view();
        let ghost known = self.type_definitions.deep_view();
        proof {
            lemma_deep_view_empty(scope.wildcard_imports);
        }
        let mut i: usize = 0;
        while i < file.items.len()
            invariant
                i <= file.items@.len(),
                trees == file.items.deep_view(),
                scope@ == scope_of(trees, i as nat, module_of(path@, base_path@)),
                self.files == old(self).files,
                self.module_to_file == old(self).module_to_file,
                known == old(self).type_definitions.deep_view(),
                self.type_definitions.deep_view() == known + definitions_in(
                    trees,
                    i as nat,
                    path@,
                ),
            decreases file.items@.len() - i,
        {
            match &file.items[i] {
                ItemSyntax::Use(tree) => {
                    let prefix: Vec<String> = Vec::new();
                    proof {
                        lemma_deep_view_empty(prefix);
                    }
                    self.parse_use_tree(tree, &mut scope, prefix);
                },
                ItemSyntax::Struct(decl) => {
                    scope.local_types.insert(decl.name.clone(), TypeKind::Struct);
                    let ghost before = self.type_definitions;
                    let entry = (decl.name.clone(), String::from_str(path));
                    self.type_definitions.push(entry);
                    proof {
                        lemma_deep_view_push(before, self.type_definitions, entry);
                    }
                },
                ItemSyntax::Enum(decl) => {
                    scope.local_types.insert(decl.name.clone(), TypeKind::Enum);
                    let ghost before = self.type_definitions;
                    let entry = (decl.name.clone(), String::from_str(path));
                    self.type_definitions.push(entry);
                    proof {
                        lemma_deep_view_push(before, self.type_definitions, entry);
                    }
                },
                _ => {
                },
            }
            i += 1;
        }
        self.module_to_file.insert(module_copy, String::from_str(path));
        self.files.insert(String::from_str(path), scope);
    }

    /// Parses a file and adds it. A text that is not valid Rust leaves the
    /// resolver as it was.
    pub fn parse_file(&mut self, path: &str, content: &str, base_path: &str) -> (r: Result<
        (),
        ParseError,
    >)
        ensures
            match r {
                Ok(_) => parsed_items(content@) is Some && final(self)@ == with_file(
                    old(self)@,
                    path@,
                    parsed_items(content@)->Some_0,
                    base_path@,
                ),
                Err(_) => parsed_items(content@) is None && final(self)@ == old(self)@,
            },
            is_consistent(old(self)@) && !old(self)@.files.contains_key(path@) ==> is_consistent(
                final(self)@,
            ),
    {
        match read_file(content) {
            Ok(file) => {
                self.add_file(path, &file, base_path);
                Ok(())
            },
            Err(error) => Err(error),
        }
    }

    /// Resolves a type reference written in `from_file`: a bare name or a
    /// path with `::`.
    pub fn resolve_type(&self, type_path: &str, from_file: &str) -> (r: ResolutionResult)
        ensures
            r@ == resolve(self@, type_path@, from_file@),
    {
        let segments = split_type_path(type_path);
        let scope = match self.files.get(from_file) {
            Some(scope) => scope,
            None => {
                return ResolutionResult::NotFound;
            },
        };
        if segments.len() == 1 {
            return self.resolve_simple_name(segments[0].as_str(), scope, from_file);
        }
        self.resolve_path(&segments, scope)
    }
}

} // verus!
