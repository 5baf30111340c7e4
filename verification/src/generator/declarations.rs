//! The TypeScript text of a declaration.

use vstd::prelude::*;
use vstd::string::*;
use crate::generator::context::{
    decorated_function_name, decorated_type_name, GeneratorContext, GeneratorModel,
};
use crate::generator::type_mapper::{rust_to_typescript, typescript_of, typescript_of_each};
use crate::models::command::{EntryPoint, Param, TauriCommand};
use crate::models::rust_type::{RustType, TypeExpr};
use crate::models::types::{
    EnumRepresentation, EnumVariant, ExportedEnum, ExportedStruct, FieldModel, Payload, RustEnum,
    RustStruct, StructField, VariantData, VariantModel, WireShape,
};
use crate::text::{chars_of, join, joined, push_char};
use crate::utils::{camel_case, to_camel_case};

verus! {

/// The generic parameters of a declaration: `<A, B>`, or nothing where it has
/// none.
pub open spec fn generics_text(generics: Seq<Seq<char>>) -> Seq<char> {
    if generics.len() == 0 {
        Seq::empty()
    } else {
        "<"@ + joined(generics, ", "@) + ">"@
    }
}

/// One field of an interface: ` name: Type;`.
pub open spec fn field_text(field: FieldModel, ctx: GeneratorModel) -> Seq<char> {
    " "@ + field.name + ": "@ + typescript_of(field.ty, ctx) + ";"@
}

/// The first `n` fields of an interface.
pub open spec fn fields_text(fields: Seq<FieldModel>, n: nat, ctx: GeneratorModel) -> Seq<char>
    decreases n,
{
    if n == 0 || n > fields.len() {
        Seq::empty()
    } else {
        fields_text(fields, (n - 1) as nat, ctx) + field_text(fields[n - 1], ctx)
    }
}

/// The interface of a struct: `export interface Name<T> { field: Type; }`,
/// the name decorated as the naming asks.
pub open spec fn interface_text(item: ExportedStruct, ctx: GeneratorModel) -> Seq<char> {
    "export interface "@ + decorated_type_name(ctx.naming, item.name) + generics_text(
        item.generics,
    ) + " {"@ + fields_text(item.fields, item.fields.len(), ctx) + " }"@
}

/// The return type of a command's wrapper: a promise of the mapped return
/// type, of `void` for a command that returns nothing.
pub open spec fn promise_text(return_type: Option<TypeExpr>, ctx: GeneratorModel) -> Seq<char> {
    "Promise<"@ + match return_type {
        Some(ty) => typescript_of(ty, ctx),
        None => "void"@,
    } + ">"@
}

/// The name of a command's wrapper: the command's name in camel case,
/// decorated as the naming asks.
pub open spec fn wrapper_name(command: EntryPoint, ctx: GeneratorModel) -> Seq<char> {
    decorated_function_name(ctx.naming, camel_case(command.name))
}

/// What a character of a string literal is written as: a backslash before a
/// double quote and before a backslash.
pub open spec fn escaped_char(c: char) -> Seq<char> {
    if c == '"' || c == '\\' {
        seq!['\\', c]
    } else {
        seq![c]
    }
}

/// The first `n` characters of a text as they stand in a string literal.
pub open spec fn escaped(s: Seq<char>, n: nat) -> Seq<char>
    decreases n,
{
    if n == 0 || n > s.len() {
        Seq::empty()
    } else {
        escaped(s, (n - 1) as nat) + escaped_char(s[n - 1])
    }
}

/// A text as a string literal between double quotes.
pub open spec fn quoted(s: Seq<char>) -> Seq<char> {
    "\""@ + escaped(s, s.len()) + "\""@
}

/// The fields of a struct-like payload as an object type: `{ a: A; b: B; }`.
pub open spec fn object_text(fields: Seq<FieldModel>, ctx: GeneratorModel) -> Seq<char> {
    "{"@ + fields_text(fields, fields.len(), ctx) + " }"@
}

/// The values of a tuple-like payload: the type itself where there is one,
/// otherwise a tuple type.
pub open spec fn tuple_text(types: Seq<TypeExpr>, ctx: GeneratorModel) -> Seq<char> {
    if types.len() == 1 {
        typescript_of(types[0], ctx)
    } else {
        "["@ + joined(typescript_of_each(types, ctx), ", "@) + "]"@
    }
}

/// The type of a variant's payload; `None` for a variant without one.
pub open spec fn payload_text(payload: Payload, ctx: GeneratorModel) -> Option<Seq<char>> {
    match payload {
        Payload::Unit => None,
        Payload::Tuple(types) => Some(tuple_text(types, ctx)),
        Payload::Struct(fields) => Some(object_text(fields, ctx)),
    }
}

/// The object that carries only the tag of a variant: `{ tag: "Name" }`.
pub open spec fn tag_only_text(tag: Seq<char>, name: Seq<char>) -> Seq<char> {
    "{ "@ + tag + ": "@ + quoted(name) + " }"@
}

/// The type of one variant in the layout of its enum.
pub open spec fn variant_text(variant: VariantModel, shape: WireShape, ctx: GeneratorModel) -> Seq<
    char,
> {
    match shape {
        WireShape::ExternallyTagged => match payload_text(variant.payload, ctx) {
            None => quoted(variant.name),
            Some(payload) => "{ "@ + quoted(variant.name) + ": "@ + payload + " }"@,
        },
        WireShape::InternallyTagged { tag } => match variant.payload {
            Payload::Unit => tag_only_text(tag, variant.name),
            Payload::Struct(fields) => "{ "@ + tag + ": "@ + quoted(variant.name) + ";"@
                + fields_text(fields, fields.len(), ctx) + " }"@,
            Payload::Tuple(types) => if types.len() == 1 {
                tag_only_text(tag, variant.name) + " & "@ + typescript_of(types[0], ctx)
            } else {
                tag_only_text(tag, variant.name)
            },
        },
        WireShape::AdjacentlyTagged { tag, content } => match payload_text(variant.payload, ctx) {
            None => tag_only_text(tag, variant.name),
            Some(payload) => "{ "@ + tag + ": "@ + quoted(variant.name) + "; "@ + content + ": "@
                + payload + " }"@,
        },
        WireShape::Untagged => match payload_text(variant.payload, ctx) {
            None => "null"@,
            Some(payload) => payload,
        },
    }
}

/// Whether no variant carries a payload.
pub open spec fn all_unit(variants: Seq<VariantModel>) -> bool {
    forall|i: int| 0 <= i < variants.len() ==> (#[trigger] variants[i]).payload is Unit
}

/// The members of the union that an enum becomes: the quoted names where no
/// variant carries a payload, otherwise the variants in the enum's layout.
pub open spec fn union_members(item: ExportedEnum, ctx: GeneratorModel) -> Seq<Seq<char>> {
    if all_unit(item.variants) {
        Seq::new(item.variants.len(), |i: int| quoted(item.variants[i].name))
    } else {
        Seq::new(item.variants.len(), |i: int| variant_text(item.variants[i], item.shape, ctx))
    }
}

/// The type alias of an enum: `export type Name = A | B;`, and `never` for an
/// enum without variants.
pub open spec fn enum_text(item: ExportedEnum, ctx: GeneratorModel) -> Seq<char> {
    "export type "@ + decorated_type_name(ctx.naming, item.name) + generics_text(item.generics)
        + " = "@ + if item.variants.len() == 0 {
        "never"@
    } else {
        joined(union_members(item, ctx), " | "@)
    } + ";"@
}

/// One parameter of a wrapper: its name in camel case and its type.
pub open spec fn parameter_text(param: Param, ctx: GeneratorModel) -> Seq<char> {
    camel_case(param.name) + ": "@ + typescript_of(param.ty, ctx)
}

/// The parameters of a wrapper.
pub open spec fn parameter_texts(params: Seq<Param>, ctx: GeneratorModel) -> Seq<Seq<char>> {
    Seq::new(params.len(), |i: int| parameter_text(params[i], ctx))
}

/// The names of the parameters in camel case.
pub open spec fn parameter_names(params: Seq<Param>) -> Seq<Seq<char>> {
    Seq::new(params.len(), |i: int| camel_case(params[i].name))
}

/// The arguments handed to `invoke`: nothing for a command without
/// arguments, otherwise `, { a, b }`.
pub open spec fn invoke_arguments(params: Seq<Param>) -> Seq<char> {
    if params.len() == 0 {
        Seq::empty()
    } else {
        ", { "@ + joined(parameter_names(params), ", "@) + " }"@
    }
}

/// The wrapper of a command: an asynchronous function that invokes the
/// command by its Rust name.
pub open spec fn command_text(command: EntryPoint, ctx: GeneratorModel) -> Seq<char> {
    "export async function "@ + wrapper_name(command, ctx) + "("@ + joined(
        parameter_texts(command.args, ctx),
        ", "@,
    ) + "): "@ + promise_text(command.return_type, ctx) + " {\n  return invoke("@ + quoted(
        command.name,
    ) + invoke_arguments(command.args) + ");\n}"@
}

fn append_generics(r: &mut String, generics: &Vec<String>)
    ensures
        final(r)@ == old(r)@ + generics_text(generics.deep_view()),
{
    if generics.len() > 0 {
        r.append("<");
        let list = join(generics, ", ");
        r.append(list.as_str());
        r.append(">");
    }
}

fn append_fields(r: &mut String, fields: &Vec<StructField>, ctx: &GeneratorContext)
    ensures
        final(r)@ == old(r)@ + fields_text(fields.deep_view(), fields@.len() as nat, ctx@),
{
    let mut i: usize = 0;
    while i < fields.len()
        invariant
            i <= fields@.len(),
            r@ == old(r)@ + fields_text(fields.deep_view(), i as nat, ctx@),
        decreases fields@.len() - i,
    {
        let field = &fields[i];
        let ty = rust_to_typescript(&field.ty, ctx);
        r.append(" ");
        r.append(field.name.as_str());
        r.append(": ");
        r.append(ty.as_str());
        r.append(";");
        i += 1;
    }
}

/// The TypeScript interface of a struct.
pub fn interface_declaration(item: &RustStruct, ctx: &GeneratorContext) -> (r: String)
    ensures
        r@ == interface_text(item@, ctx@),
{
    let mut r = String::from_str("export interface ");
    let name = ctx.format_type_name(item.name.as_str());
    r.append(name.as_str());
    append_generics(&mut r, &item.generics);
    r.append(" {");
    append_fields(&mut r, &item.fields, ctx);
    r.append(" }");
    r
}

/// A text as a string literal between double quotes.
pub fn quote(s: &str) -> (r: String)
    ensures
        r@ == quoted(s@),
{
    let chars = chars_of(s);
    let mut r = String::from_str("\"");
    let mut i: usize = 0;
    while i < chars.len()
        invariant
            i <= chars@.len(),
            chars@ == s@,
            r@ == "\""@ + escaped(s@, i as nat),
        decreases chars@.len() - i,
    {
        let c = chars[i];
        if c == '"' || c == '\\' {
            push_char(&mut r, '\\');
        }
        push_char(&mut r, c);
        i += 1;
    }
    r.append("\"");
    r
}

fn object_type(fields: &Vec<StructField>, ctx: &GeneratorContext) -> (r: String)
    ensures
        r@ == object_text(fields.deep_view(), ctx@),
{
    let mut r = String::from_str("{");
    append_fields(&mut r, fields, ctx);
    r.append(" }");
    r
}

fn tuple_type(types: &Vec<RustType>, ctx: &GeneratorContext) -> (r: String)
    ensures
        r@ == tuple_text(types.deep_view(), ctx@),
{
    if types.len() == 1 {
        rust_to_typescript(&types[0], ctx)
    } else {
        let mut parts: Vec<String> = Vec::new();
        let mut i: usize = 0;
        while i < types.len()
            invariant
                i <= types@.len(),
                parts@.len() == i,
                forall|j: int| 0 <= j < i ==> parts@[j]@ == typescript_of(types@[j]@, ctx@),
            decreases types@.len() - i,
        {
            parts.push(rust_to_typescript(&types[i], ctx));
            i += 1;
        }
        assert(parts.deep_view() =~= typescript_of_each(types.deep_view(), ctx@));
        let mut r = String::from_str("[");
        let inside = join(&parts, ", ");
        r.append(inside.as_str());
        r.append("]");
        r
    }
}

fn payload_type(data: &VariantData, ctx: &GeneratorContext) -> (r: Option<String>)
    ensures
        r.deep_view() == payload_text(data@, ctx@),
{
    match data {
        VariantData::Unit => None,
        VariantData::Tuple(types) => Some(tuple_type(types, ctx)),
        VariantData::Struct(fields) => Some(object_type(fields, ctx)),
    }
}

fn tag_only(tag: &str, name: &str) -> (r: String)
    ensures
        r@ == tag_only_text(tag@, name@),
{
    let mut r = String::from_str("{ ");
    r.append(tag);
    r.append(": ");
    let literal = quote(name);
    r.append(literal.as_str());
    r.append(" }");
    r
}

/// The TypeScript type of one variant in the layout of its enum.
pub fn variant_type(variant: &EnumVariant, representation: &EnumRepresentation, ctx: &GeneratorContext) -> (r:
    String)
    ensures
        r@ == variant_text(variant@, representation@, ctx@),
{
    let name = variant.name.as_str();
    match representation {
        EnumRepresentation::External => match payload_type(&variant.data, ctx) {
            None => quote(name),
            Some(payload) => {
                let mut r = String::from_str("{ ");
                let literal = quote(name);
                r.append(literal.as_str());
                r.append(": ");
                r.append(payload.as_str());
                r.append(" }");
                r
            },
        },
        EnumRepresentation::Internal { tag } => match &variant.data {
            VariantData::Unit => tag_only(tag.as_str(), name),
            VariantData::Struct(fields) => {
                let mut r = String::from_str("{ ");
                r.append(tag.as_str());
                r.append(": ");
                let literal = quote(name);
                r.append(literal.as_str());
                r.append(";");
                append_fields(&mut r, fields, ctx);
                r.append(" }");
                r
            },
            VariantData::Tuple(types) => {
                let mut r = tag_only(tag.as_str(), name);
                if types.len() == 1 {
                    r.append(" & ");
                    let inner = rust_to_typescript(&types[0], ctx);
                    r.append(inner.as_str());
                }
                r
            },
        },
        EnumRepresentation::Adjacent { tag, content } => match payload_type(&variant.data, ctx) {
            None => tag_only(tag.as_str(), name),
            Some(payload) => {
                let mut r = String::from_str("{ ");
                r.append(tag.as_str());
                r.append(": ");
                let literal = quote(name);
                r.append(literal.as_str());
                r.append("; ");
                r.append(content.as_str());
                r.append(": ");
                r.append(payload.as_str());
                r.append(" }");
                r
            },
        },
        EnumRepresentation::Untagged => match payload_type(&variant.data, ctx) {
            None => String::from_str("null"),
            Some(payload) => payload,
        },
    }
}

fn has_only_units(variants: &Vec<EnumVariant>) -> (r: bool)
    ensures
        r == all_unit(variants.deep_view()),
{
    let mut i: usize = 0;
    while i < variants.len()
        invariant
            i <= variants@.len(),
            forall|j: int| 0 <= j < i ==> (#[trigger] variants.deep_view()[j]).payload is Unit,
        decreases variants@.len() - i,
    {
        match &variants[i].data {
            VariantData::Unit => {},
            _ => {
                assert(!(variants.deep_view()[i as int].payload is Unit));
                return false;
            },
        }
        i += 1;
    }
    true
}

/// The TypeScript type alias of an enum.
pub fn enum_declaration(item: &RustEnum, ctx: &GeneratorContext) -> (r: String)
    ensures
        r@ == enum_text(item@, ctx@),
{
    let mut r = String::from_str("export type ");
    let name = ctx.format_type_name(item.name.as_str());
    r.append(name.as_str());
    append_generics(&mut r, &item.generics);
    r.append(" = ");
    if item.variants.len() == 0 {
        r.append("never");
    } else {
        let units = has_only_units(&item.variants);
        let mut members: Vec<String> = Vec::new();
        let mut i: usize = 0;
        while i < item.variants.len()
            invariant
                i <= item.variants@.len(),
                members@.len() == i,
                units == all_unit(item@.variants),
                forall|j: int|
                    0 <= j < i ==> (#[trigger] members@[j])@ == union_members(item@, ctx@)[j],
            decreases item.variants@.len() - i,
        {
            let member = if units {
                quote(item.variants[i].name.as_str())
            } else {
                variant_type(&item.variants[i], &item.representation, ctx)
            };
            members.push(member);
            i += 1;
        }
        assert(members.deep_view() =~= union_members(item@, ctx@));
        let union = join(&members, " | ");
        r.append(union.as_str());
    }
    r.append(";");
    r
}

/// The return type of a command's wrapper.
pub fn promise_type(command: &TauriCommand, ctx: &GeneratorContext) -> (r: String)
    ensures
        r@ == promise_text(command@.return_type, ctx@),
{
    let mut r = String::from_str("Promise<");
    match &command.return_type {
        Some(ty) => {
            let inner = rust_to_typescript(ty, ctx);
            r.append(inner.as_str());
        },
        None => {
            r.append("void");
        },
    }
    r.append(">");
    r
}

/// The name of a command's wrapper.
pub fn wrapper_function_name(command: &TauriCommand, ctx: &GeneratorContext) -> (r: String)
    ensures
        r@ == wrapper_name(command@, ctx@),
{
    let camel = to_camel_case(command.name.as_str());
    ctx.format_function_name(camel.as_str())
}

/// The declared return of a wrapper is a promise of the success type: the
/// error type of a result does not appear, and a command that returns
/// nothing promises `void`.
pub proof fn law_wrapper_promises_the_success_type(ok: TypeExpr, ctx: GeneratorModel)
    ensures
        promise_text(Some(TypeExpr::Fallible(Box::new(ok))), ctx) == promise_text(Some(ok), ctx),
        promise_text(Some(ok), ctx) == "Promise<"@ + typescript_of(ok, ctx) + ">"@,
        promise_text(None, ctx) == "Promise<"@ + "void"@ + ">"@,
{
}

/// The TypeScript wrapper of a command.
pub fn command_declaration(command: &TauriCommand, ctx: &GeneratorContext) -> (r: String)
    ensures
        r@ == command_text(command@, ctx@),
{
    let mut params: Vec<String> = Vec::new();
    let mut names: Vec<String> = Vec::new();
    let mut i: usize = 0;
    while i < command.args.len()
        invariant
            i <= command.args@.len(),
            params@.len() == i,
            names@.len() == i,
            forall|j: int|
                0 <= j < i ==> (#[trigger] params@[j])@ == parameter_text(command.args@[j]@, ctx@),
            forall|j: int|
                0 <= j < i ==> (#[trigger] names@[j])@ == camel_case(command.args@[j].name@),
        decreases command.args@.len() - i,
    {
        let arg = &command.args[i];
        let name = to_camel_case(arg.name.as_str());
        let mut param = name.clone();
        param.append(": ");
        let ty = rust_to_typescript(&arg.ty, ctx);
        param.append(ty.as_str());
        params.push(param);
        names.push(name);
        i += 1;
    }
    proof {
        assert(params.deep_view() =~= parameter_texts(command@.args, ctx@));
        assert(names.deep_view() =~= parameter_names(command@.args));
    }
    let mut r = String::from_str("export async function ");
    let name = wrapper_function_name(command, ctx);
    r.append(name.as_str());
    r.append("(");
    let list = join(&params, ", ");
    r.append(list.as_str());
    r.append("): ");
    let promise = promise_type(command, ctx);
    r.append(promise.as_str());
    r.append(" {\n  return invoke(");
    let literal = quote(command.name.as_str());
    r.append(literal.as_str());
    if command.args.len() > 0 {
        r.append(", { ");
        let arguments = join(&names, ", ");
        r.append(arguments.as_str());
        r.append(" }");
    }
    r.append(");\n}");
    r
}

} // verus!
