//! The serializable types of a source file.

use vstd::prelude::*;
use crate::models::types::{ExportedEnum, ExportedStruct, RustEnum, RustStruct};
use crate::names::NameSet;
use crate::parser::attributes::{
    derives_serialization, has_serde_attr, has_serde_attribute, is_serde_trait_name,
    is_serializable,
};
use crate::parser::records::{enum_record, parse_enum, parse_struct, struct_record};
use crate::reader::lower::{read_file, ParseError};
use crate::reader::parsed::parsed_items;
use crate::syntax::{
    lemma_const_view, lemma_mod_view, EnumSyntax, EnumTree, FieldSyntax, FieldTree, FieldsSyntax,
    FieldsTree, FileSyntax, ImplSyntax, ImplTree, ItemSyntax, ItemTree, StructSyntax, StructTree,
    TypeSyntax, VariantTree,
};
use crate::text::str_eq;

verus! {

/// Whether one of the fields carries a `serde` attribute.
pub open spec fn fields_have_serde_attr(fields: Seq<FieldTree>) -> bool {
    exists|i: int| 0 <= i < fields.len() && has_serde_attr((#[trigger] fields[i]).attrs)
}

/// Whether a field of the struct, named or positional, carries a `serde`
/// attribute.
pub open spec fn struct_has_serde_attr(item: StructTree) -> bool {
    match item.fields {
        FieldsTree::Named(fields) => fields_have_serde_attr(fields),
        FieldsTree::Unnamed(fields) => fields_have_serde_attr(fields),
        FieldsTree::Unit => false,
    }
}

/// Whether the variant, or one of its fields, carries a `serde` attribute.
pub open spec fn variant_has_serde_attr(variant: VariantTree) -> bool {
    has_serde_attr(variant.attrs) || match variant.fields {
        FieldsTree::Named(fields) => fields_have_serde_attr(fields),
        FieldsTree::Unnamed(fields) => fields_have_serde_attr(fields),
        FieldsTree::Unit => false,
    }
}

/// Whether a variant of the enum, or a field of one, carries a `serde`
/// attribute.
pub open spec fn enum_has_serde_attr(item: EnumTree) -> bool {
    exists|i: int| 0 <= i < item.variants.len() && variant_has_serde_attr(#[trigger] item.variants[i])
}

/// The type that an impl block makes serializable: the last segment of its
/// self type, where the block implements `Serialize` or `Deserialize`.
pub open spec fn serde_impl_target(block: ImplTree) -> Option<Seq<char>> {
    if block.trait_path is Some && block.trait_path->Some_0.segments.len() > 0
        && is_serde_trait_name(block.trait_path->Some_0.segments.last()) && block.self_ty is Path {
        Some(block.self_ty->Path_name)
    } else {
        None
    }
}

/// The types made serializable by the impl blocks among the first `n`
/// statements of a constant's initializer.
pub open spec fn impl_targets(stmts: Seq<Option<ItemTree>>, n: nat) -> Set<Seq<char>>
    decreases n,
{
    if n == 0 || n > stmts.len() {
        Set::empty()
    } else {
        let rest = impl_targets(stmts, (n - 1) as nat);
        match stmts[n - 1] {
            Some(ItemTree::Impl(block)) => match serde_impl_target(block) {
                Some(name) => rest.insert(name),
                None => rest,
            },
            _ => rest,
        }
    }
}

/// The types made serializable by impl blocks among the first `n` items:
/// blocks at this level, in modules at any depth, and directly inside the
/// block initializer of a constant.
pub open spec fn serializable_in(items: Seq<ItemTree>, n: nat) -> Set<Seq<char>>
    decreases items, n,
{
    if n == 0 || n > items.len() {
        Set::empty()
    } else {
        serializable_in(items, (n - 1) as nat).union(serializable_of(items[n - 1]))
    }
}

/// The types made serializable by one item.
pub open spec fn serializable_of(item: ItemTree) -> Set<Seq<char>>
    decreases item, 0nat,
{
    match item {
        ItemTree::Impl(block) => match serde_impl_target(block) {
            Some(name) => Set::empty().insert(name),
            None => Set::empty(),
        },
        ItemTree::Mod(items) => serializable_in(items, items.len()),
        ItemTree::Const(stmts) => impl_targets(stmts, stmts.len()),
        _ => Set::empty(),
    }
}

/// The types of a file that an impl block makes serializable.
pub open spec fn serializable_names(items: Seq<ItemTree>) -> Set<Seq<char>> {
    serializable_in(items, items.len())
}

/// Whether a struct is exported. As written: it derives a serialization
/// trait. After macro expansion: also where an impl block makes it
/// serializable, or one of its fields carries a `serde` attribute.
pub open spec fn struct_is_exported(
    item: StructTree,
    expanded: bool,
    serializable: Set<Seq<char>>,
) -> bool {
    if expanded {
        serializable.contains(item.name) || derives_serialization(item.attrs)
            || struct_has_serde_attr(item)
    } else {
        derives_serialization(item.attrs)
    }
}

/// Whether an enum is exported, as for a struct, with the attributes of its
/// variants and their fields in place of the fields'.
pub open spec fn enum_is_exported(
    item: EnumTree,
    expanded: bool,
    serializable: Set<Seq<char>>,
) -> bool {
    if expanded {
        serializable.contains(item.name) || derives_serialization(item.attrs)
            || enum_has_serde_attr(item)
    } else {
        derives_serialization(item.attrs)
    }
}

/// The records of the exported structs among the first `n` items, modules
/// included at any depth, in the order of the source.
pub open spec fn structs_in(
    items: Seq<ItemTree>,
    n: nat,
    source_file: Seq<char>,
    expanded: bool,
    serializable: Set<Seq<char>>,
) -> Seq<ExportedStruct>
    decreases items, n,
{
    if n == 0 || n > items.len() {
        Seq::empty()
    } else {
        structs_in(items, (n - 1) as nat, source_file, expanded, serializable) + structs_of(
            items[n - 1],
            source_file,
            expanded,
            serializable,
        )
    }
}

/// The records of the exported structs that one item holds.
pub open spec fn structs_of(
    item: ItemTree,
    source_file: Seq<char>,
    expanded: bool,
    serializable: Set<Seq<char>>,
) -> Seq<ExportedStruct>
    decreases item, 0nat,
{
    match item {
        ItemTree::Struct(decl) => if struct_is_exported(decl, expanded, serializable) {
            seq![struct_record(decl, source_file)]
        } else {
            Seq::empty()
        },
        ItemTree::Mod(items) => structs_in(items, items.len(), source_file, expanded, serializable),
        _ => Seq::empty(),
    }
}

/// The records of the exported enums among the first `n` items, modules
/// included at any depth, in the order of the source.
pub open spec fn enums_in(
    items: Seq<ItemTree>,
    n: nat,
    source_file: Seq<char>,
    expanded: bool,
    serializable: Set<Seq<char>>,
) -> Seq<ExportedEnum>
    decreases items, n,
{
    if n == 0 || n > items.len() {
        Seq::empty()
    } else {
        enums_in(items, (n - 1) as nat, source_file, expanded, serializable) + enums_of(
            items[n - 1],
            source_file,
            expanded,
            serializable,
        )
    }
}

/// The records of the exported enums that one item holds.
pub open spec fn enums_of(
    item: ItemTree,
    source_file: Seq<char>,
    expanded: bool,
    serializable: Set<Seq<char>>,
) -> Seq<ExportedEnum>
    decreases item, 0nat,
{
    match item {
        ItemTree::Enum(decl) => if enum_is_exported(decl, expanded, serializable) {
            seq![enum_record(decl, source_file)]
        } else {
            Seq::empty()
        },
        ItemTree::Mod(items) => enums_in(items, items.len(), source_file, expanded, serializable),
        _ => Seq::empty(),
    }
}

/// The set of names that decides export in a file: after macro expansion the
/// types that impl blocks make serializable, otherwise none.
pub open spec fn export_context(items: Seq<ItemTree>, expanded: bool) -> Set<Seq<char>> {
    if expanded {
        serializable_names(items)
    } else {
        Set::empty()
    }
}

/// The records of the exported structs of a file.
pub open spec fn exported_structs(items: Seq<ItemTree>, source_file: Seq<char>, expanded: bool) -> Seq<
    ExportedStruct,
> {
    structs_in(items, items.len(), source_file, expanded, export_context(items, expanded))
}

/// The records of the exported enums of a file.
pub open spec fn exported_enums(items: Seq<ItemTree>, source_file: Seq<char>, expanded: bool) -> Seq<
    ExportedEnum,
> {
    enums_in(items, items.len(), source_file, expanded, export_context(items, expanded))
}

fn fields_have_serde_attribute(fields: &Vec<FieldSyntax>) -> (r: bool)
    ensures
        r == fields_have_serde_attr(fields.deep_view()),
{
    let mut i: usize = 0;
    while i < fields.len()
        invariant
            i <= fields@.len(),
            forall|j: int| 0 <= j < i ==> !has_serde_attr((#[trigger] fields.deep_view()[j]).attrs),
        decreases fields@.len() - i,
    {
        if has_serde_attribute(&fields[i].attrs) {
            assert(has_serde_attr(fields.deep_view()[i as int].attrs));
            return true;
        }
        i += 1;
    }
    false
}

/// Whether a field of the struct, named or positional, carries a `serde`
/// attribute.
pub fn has_serde_field_attrs(item: &StructSyntax) -> (r: bool)
    ensures
        r == struct_has_serde_attr(item@),
{
    match &item.fields {
        FieldsSyntax::Named(named) => fields_have_serde_attribute(named),
        FieldsSyntax::Unnamed(unnamed) => fields_have_serde_attribute(unnamed),
        FieldsSyntax::Unit => false,
    }
}

/// Whether a variant of the enum, or a field of one, carries a `serde`
/// attribute.
pub fn has_serde_variant_attrs(item: &EnumSyntax) -> (r: bool)
    ensures
        r == enum_has_serde_attr(item@),
{
    let mut i: usize = 0;
    while i < item.variants.len()
        invariant
            i <= item.variants@.len(),
            forall|j: int| 0 <= j < i ==> !variant_has_serde_attr(#[trigger] item@.variants[j]),
        decreases item.variants@.len() - i,
    {
        let variant = &item.variants[i];
        let found = has_serde_attribute(&variant.attrs) || match &variant.fields {
            FieldsSyntax::Named(named) => fields_have_serde_attribute(named),
            FieldsSyntax::Unnamed(unnamed) => fields_have_serde_attribute(unnamed),
            FieldsSyntax::Unit => false,
        };
        if found {
            assert(variant_has_serde_attr(item@.variants[i as int]));
            return true;
        }
        i += 1;
    }
    false
}

/// Adds to `result` the type that the impl block makes serializable, if any.
pub fn check_serde_impl(block: &ImplSyntax, result: &mut NameSet)
    ensures
        final(result)@ == match serde_impl_target(block@) {
            Some(name) => old(result)@.insert(name),
            None => old(result)@,
        },
{
    if let Some(trait_path) = &block.trait_path {
        let n = trait_path.segments.len();
        if n > 0 {
            let trait_name = trait_path.segments[n - 1].as_str();
            if str_eq(trait_name, "Serialize") || str_eq(trait_name, "Deserialize") {
                if let TypeSyntax::Path { name, .. } = &block.self_ty {
                    result.insert(name.clone());
                }
            }
        }
    }
}

fn collect_from_const(stmts: &Vec<Option<ItemSyntax>>, result: &mut NameSet)
    ensures
        final(result)@ == old(result)@.union(
            impl_targets(stmts.deep_view(), stmts@.len() as nat),
        ),
{
    let mut i: usize = 0;
    while i < stmts.len()
        invariant
            i <= stmts@.len(),
            result@ == old(result)@.union(impl_targets(stmts.deep_view(), i as nat)),
        decreases stmts@.len() - i,
    {
        if let Some(ItemSyntax::Impl(block)) = &stmts[i] {
            check_serde_impl(block, result);
        }
        i += 1;
    }
}

fn collect_serializable_types_recursive(items: &Vec<ItemSyntax>, result: &mut NameSet)
    ensures
        final(result)@ == old(result)@.union(serializable_names(items.deep_view())),
    decreases items,
{
    let mut i: usize = 0;
    while i < items.len()
        invariant
            i <= items@.len(),
            result@ == old(result)@.union(serializable_in(items.deep_view(), i as nat)),
        decreases items@.len() - i,
    {
        let ghost before = result@;
        let ghost item = items.deep_view()[i as int];
        match &items[i] {
            ItemSyntax::Impl(block) => {
                check_serde_impl(block, result);
                assert(result@ =~= before.union(serializable_of(item)));
            },
            ItemSyntax::Mod(inner) => {
                proof {
                    lemma_mod_view(*inner);
                }
                collect_serializable_types_recursive(inner, result);
                assert(result@ =~= before.union(serializable_of(item)));
            },
            ItemSyntax::Const(stmts) => {
                proof {
                    lemma_const_view(*stmts);
                }
                collect_from_const(stmts, result);
                assert(result@ =~= before.union(serializable_of(item)));
            },
            _ => {
                assert(result@ =~= before.union(serializable_of(item)));
            },
        }
        i += 1;
    }
}

/// The names of the types of a file that an impl block makes serializable.
pub fn collect_serializable_types(items: &Vec<ItemSyntax>) -> (r: NameSet)
    ensures
        r@ == serializable_names(items.deep_view()),
{
    let mut result = NameSet::new();
    collect_serializable_types_recursive(items, &mut result);
    result
}

/// Appends the records of the exported structs and enums among the items,
/// modules included, in the order of the source.
pub fn parse_items(
    items: &Vec<ItemSyntax>,
    source_file: &str,
    expanded: bool,
    serializable_types: &NameSet,
    structs: &mut Vec<RustStruct>,
    enums: &mut Vec<RustEnum>,
)
    ensures
        final(structs).deep_view() == old(structs).deep_view() + structs_in(
            items.deep_view(),
            items@.len() as nat,
            source_file@,
            expanded,
            serializable_types@,
        ),
        final(enums).deep_view() == old(enums).deep_view() + enums_in(
            items.deep_view(),
            items@.len() as nat,
            source_file@,
            expanded,
            serializable_types@,
        ),
    decreases items,
{
    let mut i: usize = 0;
    let ghost trees = items.deep_view();
    let ghost names = serializable_types@;
    while i < items.len()
        invariant
            i <= items@.len(),
            trees == items.deep_view(),
            names == serializable_types@,
            structs.deep_view() == old(structs).deep_view() + structs_in(
                trees,
                i as nat,
                source_file@,
                expanded,
                names,
            ),
            enums.deep_view() == old(enums).deep_view() + enums_in(
                trees,
                i as nat,
                source_file@,
                expanded,
                names,
            ),
        decreases items@.len() - i,
    {
        let ghost structs_before = structs.deep_view();
        let ghost enums_before = enums.deep_view();
        match &items[i] {
            ItemSyntax::Struct(item_struct) => {
                let should_include = if expanded {
                    serializable_types.contains(item_struct.name.as_str()) || is_serializable(
                        &item_struct.attrs,
                    ) || has_serde_field_attrs(item_struct)
                } else {
                    is_serializable(&item_struct.attrs)
                };
                if should_include {
                    let record = parse_struct(item_struct, source_file);
                    structs.push(record);
                }
            },
            ItemSyntax::Enum(item_enum) => {
                let should_include = if expanded {
                    serializable_types.contains(item_enum.name.as_str()) || is_serializable(
                        &item_enum.attrs,
                    ) || has_serde_variant_attrs(item_enum)
                } else {
                    is_serializable(&item_enum.attrs)
                };
                if should_include {
                    let record = parse_enum(item_enum, source_file);
                    enums.push(record);
                }
            },
            ItemSyntax::Mod(inner) => {
                proof {
                    lemma_mod_view(*inner);
                }
                parse_items(inner, source_file, expanded, serializable_types, structs, enums);
            },
            _ => {},
        }
        i += 1;
        proof {
            let item = trees[i - 1];
            assert(structs.deep_view() =~= structs_before + structs_of(
                item,
                source_file@,
                expanded,
                names,
            ));
            assert(enums.deep_view() =~= enums_before + enums_of(
                item,
                source_file@,
                expanded,
                names,
            ));
        }
    }
}

/// The exported structs and enums of a file, in the order of the source.
///
/// With `expanded` the file is read as the output of macro expansion, where
/// the derive attributes are gone.
pub fn extract_types(file: &FileSyntax, source_file: &str, expanded: bool) -> (r: (
    Vec<RustStruct>,
    Vec<RustEnum>,
))
    ensures
        r.0.deep_view() == exported_structs(file@.items, source_file@, expanded),
        r.1.deep_view() == exported_enums(file@.items, source_file@, expanded),
{
    let mut structs: Vec<RustStruct> = Vec::new();
    let mut enums: Vec<RustEnum> = Vec::new();
    let serializable_types = if expanded {
        collect_serializable_types(&file.items)
    } else {
        NameSet::new()
    };
    parse_items(&file.items, source_file, expanded, &serializable_types, &mut structs, &mut enums);
    (structs, enums)
}

fn parse_types_internal(content: &str, source_file: &str, expanded: bool) -> (r: Result<
    (Vec<RustStruct>, Vec<RustEnum>),
    ParseError,
>)
    ensures
        match r {
            Ok(found) => parsed_items(content@) is Some && found.0.deep_view() == exported_structs(
                parsed_items(content@)->Some_0,
                source_file@,
                expanded,
            ) && found.1.deep_view() == exported_enums(
                parsed_items(content@)->Some_0,
                source_file@,
                expanded,
            ),
            Err(_) => parsed_items(content@) is None,
        },
{
    match read_file(content) {
        Ok(file) => Ok(extract_types(&file, source_file, expanded)),
        Err(error) => Err(error),
    }
}

/// Parses a source file and extracts its exported structs and enums: those
/// that derive a serialization trait.
///
/// Fails exactly where the text is not valid Rust.
pub fn parse_types(content: &str, source_file: &str) -> (r: Result<
    (Vec<RustStruct>, Vec<RustEnum>),
    ParseError,
>)
    ensures
        match r {
            Ok(found) => parsed_items(content@) is Some && found.0.deep_view() == exported_structs(
                parsed_items(content@)->Some_0,
                source_file@,
                false,
            ) && found.1.deep_view() == exported_enums(
                parsed_items(content@)->Some_0,
                source_file@,
                false,
            ),
            Err(_) => parsed_items(content@) is None,
        },
{
    parse_types_internal(content, source_file, false)
}

/// Parses macro-expanded source and extracts its exported structs and enums:
/// those that an impl block makes serializable, that still derive a
/// serialization trait, or that carry a `serde` attribute inside.
///
/// Fails exactly where the text is not valid Rust.
pub fn parse_types_expanded(content: &str, source_file: &str) -> (r: Result<
    (Vec<RustStruct>, Vec<RustEnum>),
    ParseError,
>)
    ensures
        match r {
            Ok(found) => parsed_items(content@) is Some && found.0.deep_view() == exported_structs(
                parsed_items(content@)->Some_0,
                source_file@,
                true,
            ) && found.1.deep_view() == exported_enums(
                parsed_items(content@)->Some_0,
                source_file@,
                true,
            ),
            Err(_) => parsed_items(content@) is None,
        },
{
    parse_types_internal(content, source_file, true)
}

} // verus!
