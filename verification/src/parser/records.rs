//! From a struct or enum declaration to its record.

use vstd::prelude::*;
use vstd::string::*;
use crate::models::rust_type::{RustType, TypeExpr};
use crate::models::types::{
    EnumRepresentation, EnumVariant, ExportedEnum, ExportedStruct, FieldModel, Payload, RustEnum,
    RustStruct, StructField, VariantModel, VariantData, WireShape,
};
use crate::names::NameSet;
use crate::parser::attributes::{
    container_settings, get_serde_rename, parse_serde_container_attrs, serde_rename,
    ContainerSettings, SerdeContainerAttrs,
};
use crate::parser::type_extractor::{parse_type_with_context, type_expr_of};
use crate::seqs::lemma_deep_view_empty;
use crate::syntax::{
    EnumSyntax, EnumTree, FieldSyntax, FieldTree, FieldsSyntax, FieldsTree, StructSyntax,
    StructTree, VariantSyntax, VariantTree,
};
use crate::text::{
    decimal, decimal_string, lowercase_of, str_eq, to_lowercase,
    to_uppercase, uppercase_of,
};
use crate::utils::{
    camel_case, kebab_case, screaming_kebab_case, screaming_snake_case, snake_case, to_camel_case,
    to_kebab_case, to_screaming_kebab_case, to_screaming_snake_case, to_snake_case,
};

verus! {

/// The name converted by a `rename_all` rule. An unknown rule, and
/// `PascalCase`, leave the name as it is.
pub open spec fn renamed_by_rule(name: Seq<char>, rule: Seq<char>) -> Seq<char> {
    if rule == "lowercase"@ {
        lowercase_of(name)
    } else if rule == "UPPERCASE"@ {
        uppercase_of(name)
    } else if rule == "camelCase"@ {
        camel_case(name)
    } else if rule == "snake_case"@ {
        snake_case(name)
    } else if rule == "SCREAMING_SNAKE_CASE"@ {
        screaming_snake_case(name)
    } else if rule == "kebab-case"@ {
        kebab_case(name)
    } else if rule == "SCREAMING-KEBAB-CASE"@ {
        screaming_kebab_case(name)
    } else {
        name
    }
}

/// The name converted by the container's rule, where it has one.
pub open spec fn rename_all_applied(name: Seq<char>, rule: Option<Seq<char>>) -> Option<Seq<char>> {
    match rule {
        Some(rule) => Some(renamed_by_rule(name, rule)),
        None => None,
    }
}

/// The names of the type parameters among the generic parameters.
pub open spec fn type_parameters(generics: Seq<Option<Seq<char>>>) -> Seq<Seq<char>>
    decreases generics.len(),
{
    if generics.len() == 0 {
        Seq::empty()
    } else if generics.last() is Some {
        type_parameters(generics.drop_last()).push(generics.last()->Some_0)
    } else {
        type_parameters(generics.drop_last())
    }
}

/// The record of a named field: its rename or else its own name, and its type.
pub open spec fn field_record(field: FieldTree, name: Seq<char>, generics: Set<Seq<char>>) -> FieldModel {
    FieldModel {
        name: match serde_rename(field.attrs) {
            Some(renamed) => renamed,
            None => name,
        },
        ty: type_expr_of(field.ty, generics),
    }
}

/// The records of the fields that have a name, in order.
pub open spec fn named_fields(fields: Seq<FieldTree>, generics: Set<Seq<char>>) -> Seq<FieldModel>
    decreases fields.len(),
{
    if fields.len() == 0 {
        Seq::empty()
    } else if fields.last().name is Some {
        named_fields(fields.drop_last(), generics).push(
            field_record(fields.last(), fields.last().name->Some_0, generics),
        )
    } else {
        named_fields(fields.drop_last(), generics)
    }
}

/// The name given to the field at a position of a tuple struct.
pub open spec fn positional_name(i: nat) -> Seq<char> {
    "field"@ + decimal(i)
}

/// The records of the fields of a tuple struct: `field0`, `field1`, ...
pub open spec fn positional_fields(fields: Seq<FieldTree>, generics: Set<Seq<char>>) -> Seq<FieldModel> {
    Seq::new(
        fields.len(),
        |i: int| FieldModel { name: positional_name(i as nat), ty: type_expr_of(fields[i].ty, generics) },
    )
}

/// The types of the fields, in order.
pub open spec fn field_types(fields: Seq<FieldTree>, generics: Set<Seq<char>>) -> Seq<TypeExpr> {
    Seq::new(fields.len(), |i: int| type_expr_of(fields[i].ty, generics))
}

/// The fields of a struct.
pub open spec fn struct_fields(fields: FieldsTree, generics: Set<Seq<char>>) -> Seq<FieldModel> {
    match fields {
        FieldsTree::Named(fields) => named_fields(fields, generics),
        FieldsTree::Unnamed(fields) => positional_fields(fields, generics),
        FieldsTree::Unit => Seq::empty(),
    }
}

/// The record of a struct declaration found in `source_file`.
pub open spec fn struct_record(item: StructTree, source_file: Seq<char>) -> ExportedStruct {
    let generics = type_parameters(item.generics);
    ExportedStruct {
        name: item.name,
        generics,
        fields: struct_fields(item.fields, generics.to_set()),
        source_file,
    }
}

/// The layout that the container settings ask for: `untagged` first, then
/// `tag` with `content`, `tag` alone, and the default.
pub open spec fn wire_shape(settings: ContainerSettings) -> WireShape {
    if settings.untagged {
        WireShape::Untagged
    } else {
        match settings.tag {
            Some(tag) => match settings.content {
                Some(content) => WireShape::AdjacentlyTagged { tag, content },
                None => WireShape::InternallyTagged { tag },
            },
            None => WireShape::ExternallyTagged,
        }
    }
}

/// The payload of a variant.
pub open spec fn variant_payload(fields: FieldsTree, generics: Set<Seq<char>>) -> Payload {
    match fields {
        FieldsTree::Unit => Payload::Unit,
        FieldsTree::Unnamed(fields) => Payload::Tuple(field_types(fields, generics)),
        FieldsTree::Named(fields) => Payload::Struct(named_fields(fields, generics)),
    }
}

/// The wire name of a variant: its explicit rename, or else its name
/// converted by the container's rule, or else its name.
pub open spec fn variant_name(variant: VariantTree, rule: Option<Seq<char>>) -> Seq<char> {
    match serde_rename(variant.attrs) {
        Some(renamed) => renamed,
        None => match rule {
            Some(rule) => renamed_by_rule(variant.name, rule),
            None => variant.name,
        },
    }
}

/// The record of a variant.
pub open spec fn variant_record(
    variant: VariantTree,
    rule: Option<Seq<char>>,
    generics: Set<Seq<char>>,
) -> VariantModel {
    VariantModel {
        name: variant_name(variant, rule),
        payload: variant_payload(variant.fields, generics),
    }
}

/// The records of the variants, in order.
pub open spec fn variant_records(
    variants: Seq<VariantTree>,
    rule: Option<Seq<char>>,
    generics: Set<Seq<char>>,
) -> Seq<VariantModel> {
    Seq::new(variants.len(), |i: int| variant_record(variants[i], rule, generics))
}

/// The record of an enum declaration found in `source_file`.
pub open spec fn enum_record(item: EnumTree, source_file: Seq<char>) -> ExportedEnum {
    let generics = type_parameters(item.generics);
    let settings = container_settings(item.attrs);
    ExportedEnum {
        name: item.name,
        generics,
        shape: wire_shape(settings),
        variants: variant_records(item.variants, settings.rename_all, generics.to_set()),
        source_file,
    }
}

/// Applies a `rename_all` rule to a name; `None` where there is no rule.
pub fn apply_rename_all(name: &str, rename_all: &Option<String>) -> (r: Option<String>)
    ensures
        r.deep_view() == rename_all_applied(name@, rename_all.deep_view()),
{
    match rename_all {
        None => None,
        Some(rule) => {
            let rule = rule.as_str();
            let renamed = if str_eq(rule, "lowercase") {
                to_lowercase(name)
            } else if str_eq(rule, "UPPERCASE") {
                to_uppercase(name)
            } else if str_eq(rule, "camelCase") {
                to_camel_case(name)
            } else if str_eq(rule, "snake_case") {
                to_snake_case(name)
            } else if str_eq(rule, "SCREAMING_SNAKE_CASE") {
                to_screaming_snake_case(name)
            } else if str_eq(rule, "kebab-case") {
                to_kebab_case(name)
            } else if str_eq(rule, "SCREAMING-KEBAB-CASE") {
                to_screaming_kebab_case(name)
            } else {
                String::from_str(name)
            };
            Some(renamed)
        },
    }
}

/// The names of the type parameters among the generic parameters.
pub fn type_parameter_names(generics: &Vec<Option<String>>) -> (r: Vec<String>)
    ensures
        r.deep_view() == type_parameters(generics.deep_view()),
{
    let mut names: Vec<String> = Vec::new();
    let mut i: usize = 0;
    while i < generics.len()
        invariant
            i <= generics@.len(),
            names.deep_view() == type_parameters(generics.deep_view().take(i as int)),
        decreases generics@.len() - i,
    {
        proof {
            let upto = generics.deep_view().take(i + 1);
            assert(upto.drop_last() =~= generics.deep_view().take(i as int));
        }
        if let Some(name) = &generics[i] {
            let copy = name.clone();
            names.push(copy);
        }
        i += 1;
    }
    assert(generics.deep_view().take(generics@.len() as int) =~= generics.deep_view());
    names
}

fn parse_named_fields(fields: &Vec<FieldSyntax>, generic_params: &NameSet) -> (r: Vec<StructField>)
    ensures
        r.deep_view() == named_fields(fields.deep_view(), generic_params@),
{
    let mut out: Vec<StructField> = Vec::new();
    let mut i: usize = 0;
    while i < fields.len()
        invariant
            i <= fields@.len(),
            out.deep_view() == named_fields(fields.deep_view().take(i as int), generic_params@),
        decreases fields@.len() - i,
    {
        let field = &fields[i];
        proof {
            let upto = fields.deep_view().take(i + 1);
            assert(upto.drop_last() =~= fields.deep_view().take(i as int));
        }
        if let Some(name) = &field.name {
            let ty = parse_type_with_context(&field.ty, generic_params);
            let final_name = match get_serde_rename(&field.attrs) {
                Some(renamed) => renamed,
                None => name.clone(),
            };
            let record = StructField { name: final_name, ty };
            out.push(record);
        }
        i += 1;
    }
    assert(fields.deep_view().take(fields@.len() as int) =~= fields.deep_view());
    out
}

fn parse_positional_fields(fields: &Vec<FieldSyntax>, generic_params: &NameSet) -> (r: Vec<
    StructField,
>)
    ensures
        r.deep_view() == positional_fields(fields.deep_view(), generic_params@),
{
    let mut out: Vec<StructField> = Vec::new();
    let mut i: usize = 0;
    while i < fields.len()
        invariant
            i <= fields@.len(),
            out@.len() == i,
            forall|j: int|
                0 <= j < i ==> (#[trigger] out@[j])@ == (FieldModel {
                    name: positional_name(j as nat),
                    ty: type_expr_of(fields@[j].ty@, generic_params@),
                }),
        decreases fields@.len() - i,
    {
        let mut name = String::from_str("field");
        let digits = decimal_string(i);
        name.append(digits.as_str());
        let ty = parse_type_with_context(&fields[i].ty, generic_params);
        out.push(StructField { name, ty });
        i += 1;
    }
    out
}

fn parse_field_types(fields: &Vec<FieldSyntax>, generic_params: &NameSet) -> (r: Vec<RustType>)
    ensures
        r.deep_view() == field_types(fields.deep_view(), generic_params@),
{
    let mut out: Vec<RustType> = Vec::new();
    let mut i: usize = 0;
    while i < fields.len()
        invariant
            i <= fields@.len(),
            out@.len() == i,
            forall|j: int|
                0 <= j < i ==> (#[trigger] out@[j])@ == type_expr_of(
                    fields@[j].ty@,
                    generic_params@,
                ),
        decreases fields@.len() - i,
    {
        out.push(parse_type_with_context(&fields[i].ty, generic_params));
        i += 1;
    }
    out
}

/// The set of the type parameters' names.
fn generic_set(generics: &Vec<String>) -> (r: NameSet)
    ensures
        r@ == generics.deep_view().to_set(),
{
    NameSet::from_names(generics)
}

/// Builds the record of a struct declaration.
pub fn parse_struct(item: &StructSyntax, source_file: &str) -> (r: RustStruct)
    ensures
        r@ == struct_record(item@, source_file@),
{
    let generics = type_parameter_names(&item.generics);
    let generic_params = generic_set(&generics);
    let fields = match &item.fields {
        FieldsSyntax::Named(named) => parse_named_fields(named, &generic_params),
        FieldsSyntax::Unnamed(unnamed) => parse_positional_fields(unnamed, &generic_params),
        FieldsSyntax::Unit => {
            let none: Vec<StructField> = Vec::new();
            proof {
                lemma_deep_view_empty(none);
            }
            none
        },
    };
    RustStruct {
        name: item.name.clone(),
        generics,
        fields,
        source_file: String::from_str(source_file),
    }
}

fn parse_variant(
    variant: &VariantSyntax,
    rename_all: &Option<String>,
    generic_params: &NameSet,
) -> (r: EnumVariant)
    ensures
        r@ == variant_record(variant@, rename_all.deep_view(), generic_params@),
{
    let name = match get_serde_rename(&variant.attrs) {
        Some(renamed) => renamed,
        None => match apply_rename_all(variant.name.as_str(), rename_all) {
            Some(converted) => converted,
            None => variant.name.clone(),
        },
    };
    let data = match &variant.fields {
        FieldsSyntax::Unit => VariantData::Unit,
        FieldsSyntax::Unnamed(unnamed) => VariantData::Tuple(
            parse_field_types(unnamed, generic_params),
        ),
        FieldsSyntax::Named(named) => VariantData::Struct(
            parse_named_fields(named, generic_params),
        ),
    };
    EnumVariant { name, data }
}

/// The layout that the container settings ask for.
pub fn representation_of(settings: &SerdeContainerAttrs) -> (r: EnumRepresentation)
    ensures
        r@ == wire_shape(settings@),
{
    if settings.untagged {
        EnumRepresentation::Untagged
    } else {
        match &settings.tag {
            Some(tag) => match &settings.content {
                Some(content) => EnumRepresentation::Adjacent {
                    tag: tag.clone(),
                    content: content.clone(),
                },
                None => EnumRepresentation::Internal { tag: tag.clone() },
            },
            None => EnumRepresentation::External,
        }
    }
}

/// Builds the record of an enum declaration.
pub fn parse_enum(item: &EnumSyntax, source_file: &str) -> (r: RustEnum)
    ensures
        r@ == enum_record(item@, source_file@),
{
    let generics = type_parameter_names(&item.generics);
    let generic_params = generic_set(&generics);
    let container_attrs = parse_serde_container_attrs(&item.attrs);
    let representation = representation_of(&container_attrs);
    let mut variants: Vec<EnumVariant> = Vec::new();
    let mut i: usize = 0;
    while i < item.variants.len()
        invariant
            i <= item.variants@.len(),
            variants@.len() == i,
            forall|j: int|
                0 <= j < i ==> (#[trigger] variants@[j])@ == variant_record(
                    item.variants@[j]@,
                    container_attrs.rename_all.deep_view(),
                    generic_params@,
                ),
        decreases item.variants@.len() - i,
    {
        variants.push(parse_variant(&item.variants[i], &container_attrs.rename_all, &generic_params));
        i += 1;
    }
    assert(variants.deep_view() =~= variant_records(
        item@.variants,
        container_attrs@.rename_all,
        generic_params@,
    ));
    RustEnum {
        name: item.name.clone(),
        generics,
        variants,
        source_file: String::from_str(source_file),
        representation,
    }
}

} // verus!
