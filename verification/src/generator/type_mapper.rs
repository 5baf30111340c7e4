//! From a type expression to TypeScript.

use vstd::prelude::*;
use vstd::string::*;
use crate::generator::context::{decorated_type_name, GeneratorContext, GeneratorModel};
use crate::known_types::{is_bool_name, typescript_primitive};
use crate::models::rust_type::{RustType, TypeExpr};
use crate::models::rust_type::lemma_tuple_view;
use crate::text::{contains_char, join, joined, str_eq};

verus! {

/// Whether the TypeScript form of a map key can index a `Record`: every
/// well-known name but `bool`, a declared type, a generic parameter. A list,
/// an option, a map, a tuple and `bool` cannot.
pub open spec fn key_is_usable(key: TypeExpr) -> bool {
    match key {
        TypeExpr::Primitive(name) => !is_bool_name(name),
        TypeExpr::Named(_) => true,
        TypeExpr::GenericParam(_) => true,
        _ => false,
    }
}

/// The TypeScript text for a well-known name; `unknown` for any other.
pub open spec fn typescript_of_primitive(name: Seq<char>) -> Seq<char> {
    match typescript_primitive(name) {
        Some(ts) => ts,
        None => "unknown"@,
    }
}

/// Whether the text for the type expression already admits `null`: an option,
/// and a result whose success type does.
pub open spec fn is_nullable(ty: TypeExpr) -> bool
    decreases ty,
{
    match ty {
        TypeExpr::Optional(_) => true,
        TypeExpr::Fallible(ok) => is_nullable(*ok),
        _ => false,
    }
}

/// The TypeScript text for a type expression. An option adds `| null` to the
/// text of what it holds, unless that text admits `null` already: nested
/// options are one nullable union.
pub open spec fn typescript_of(ty: TypeExpr, ctx: GeneratorModel) -> Seq<char>
    decreases ty,
{
    match ty {
        TypeExpr::Primitive(name) => typescript_of_primitive(name),
        TypeExpr::List(inner) => {
            let element = typescript_of(*inner, ctx);
            if element.contains('|') {
                "("@ + element + ")[]"@
            } else {
                element + "[]"@
            }
        },
        TypeExpr::Optional(inner) => if is_nullable(*inner) {
            typescript_of(*inner, ctx)
        } else {
            typescript_of(*inner, ctx) + " | null"@
        },
        TypeExpr::Fallible(ok) => typescript_of(*ok, ctx),
        TypeExpr::Mapping { key, value } => {
            if key_is_usable(*key) {
                "Record<"@ + typescript_of(*key, ctx) + ", "@ + typescript_of(*value, ctx) + ">"@
            } else {
                "Record<string, "@ + typescript_of(*value, ctx) + ">"@
            }
        },
        TypeExpr::Tuple(types) => {
            if types.len() == 0 {
                "void"@
            } else {
                "["@ + joined(typescript_of_each(types, ctx), ", "@) + "]"@
            }
        },
        TypeExpr::Named(name) => {
            if ctx.custom_types.contains(name) {
                decorated_type_name(ctx.naming, name)
            } else {
                name
            }
        },
        TypeExpr::GenericParam(name) => name,
        TypeExpr::Unit => "void"@,
        TypeExpr::Unrecognized(_) => "unknown"@,
    }
}

/// The TypeScript texts for a sequence of type expressions.
pub open spec fn typescript_of_each(types: Seq<TypeExpr>, ctx: GeneratorModel) -> Seq<Seq<char>>
    decreases types,
{
    Seq::new(
        types.len(),
        |i: int|
            if 0 <= i < types.len() {
                typescript_of(types[i], ctx)
            } else {
                Seq::empty()
            },
    )
}

/// Whether the text for the type already admits `null`.
pub fn admits_null(ty: &RustType) -> (r: bool)
    ensures
        r == is_nullable(ty@),
    decreases ty,
{
    match ty {
        RustType::Option(_) => true,
        RustType::Result(ok) => admits_null(ok),
        _ => false,
    }
}

fn key_usable(key: &RustType) -> (r: bool)
    ensures
        r == key_is_usable(key@),
{
    match key {
        RustType::Primitive(name) => !str_eq(name.as_str(), "bool"),
        RustType::Custom(_) => true,
        RustType::Generic(_) => true,
        _ => false,
    }
}

/// The TypeScript type for a well-known Rust type name; `unknown` for a name
/// outside the table.
pub fn primitive_to_typescript(name: &str) -> (r: String)
    ensures
        r@ == typescript_of_primitive(name@),
{
    match crate::known_types::primitive_to_typescript(name) {
        Some(ts) => String::from_str(ts),
        None => String::from_str("unknown"),
    }
}

/// Converts a Rust type to its TypeScript equivalent.
pub fn rust_to_typescript(rust_type: &RustType, ctx: &GeneratorContext) -> (r: String)
    ensures
        r@ == typescript_of(rust_type@, ctx@),
    decreases rust_type,
{
    match rust_type {
        RustType::Primitive(name) => primitive_to_typescript(name.as_str()),
        RustType::Vec(inner) => {
            let inner_ts = rust_to_typescript(inner, ctx);
            if contains_char(inner_ts.as_str(), '|') {
                let mut r = String::from_str("(");
                r.append(inner_ts.as_str());
                r.append(")[]");
                r
            } else {
                let mut r = inner_ts;
                r.append("[]");
                r
            }
        },
        RustType::Option(inner) => {
            let mut r = rust_to_typescript(inner, ctx);
            if !admits_null(inner) {
                r.append(" | null");
            }
            r
        },
        RustType::Result(ok) => rust_to_typescript(ok, ctx),
        RustType::HashMap { key, value } => {
            let key_ts = rust_to_typescript(key, ctx);
            let value_ts = rust_to_typescript(value, ctx);
            if key_usable(key) {
                let mut r = String::from_str("Record<");
                r.append(key_ts.as_str());
                r.append(", ");
                r.append(value_ts.as_str());
                r.append(">");
                r
            } else {
                let mut r = String::from_str("Record<string, ");
                r.append(value_ts.as_str());
                r.append(">");
                r
            }
        },
        RustType::Tuple(types) => {
            if types.len() == 0 {
                String::from_str("void")
            } else {
                let mut parts: Vec<String> = Vec::new();
                let mut i: usize = 0;
                while i < types.len()
                    invariant
                        i <= types@.len(),
                        parts@.len() == i,
                        *rust_type == RustType::Tuple(*types),
                        forall|j: int|
                            0 <= j < i ==> parts@[j]@ == typescript_of(types@[j]@, ctx@),
                    decreases types@.len() - i,
                {
                    proof {
                        assert(rust_type->Tuple_0 == *types);
                    }
                    parts.push(rust_to_typescript(&types[i], ctx));
                    i += 1;
                }
                let mut r = String::from_str("[");
                let inside = join(&parts, ", ");
                r.append(inside.as_str());
                r.append("]");
                proof {
                    assert(parts.deep_view() =~= typescript_of_each(rust_type@->Tuple_0, ctx@));
                }
                r
            }
        },
        RustType::Custom(name) => {
            if ctx.is_custom_type(name.as_str()) {
                ctx.format_type_name(name.as_str())
            } else {
                name.clone()
            }
        },
        RustType::Generic(name) => name.clone(),
        RustType::Unit => String::from_str("void"),
        RustType::Unknown(_) => String::from_str("unknown"),
    }
}

/// The warning for a name that is classified as well-known and is not in the
/// table.
pub open spec fn unknown_primitive_warning(name: Seq<char>) -> Seq<char> {
    "Unknown primitive type '"@ + name + "', using 'unknown'"@
}

/// The warning for a type expression that could not be classified.
pub open spec fn unknown_type_warning(description: Seq<char>) -> Seq<char> {
    "Unknown type '"@ + description + "', using 'unknown'"@
}

/// The warnings that mapping a type expression gives, from left to right: one
/// for each part that becomes `unknown` for want of a rule.
pub open spec fn warnings_of(ty: TypeExpr) -> Seq<Seq<char>>
    decreases ty, 0nat,
{
    match ty {
        TypeExpr::Primitive(name) => if typescript_primitive(name) is None {
            seq![unknown_primitive_warning(name)]
        } else {
            Seq::empty()
        },
        TypeExpr::List(inner) => warnings_of(*inner),
        TypeExpr::Optional(inner) => warnings_of(*inner),
        TypeExpr::Fallible(inner) => warnings_of(*inner),
        TypeExpr::Mapping { key, value } => warnings_of(*key) + warnings_of(*value),
        TypeExpr::Tuple(types) => warnings_of_first(types, types.len()),
        TypeExpr::Unrecognized(description) => seq![unknown_type_warning(description)],
        _ => Seq::empty(),
    }
}

/// The warnings that mapping the first `n` type expressions gives.
pub open spec fn warnings_of_first(types: Seq<TypeExpr>, n: nat) -> Seq<Seq<char>>
    decreases types, n,
{
    if n == 0 || n > types.len() {
        Seq::empty()
    } else {
        warnings_of_first(types, (n - 1) as nat) + warnings_of(types[n - 1])
    }
}

/// Appends to `out` the warnings that mapping a type gives.
pub fn collect_warnings(rust_type: &RustType, out: &mut Vec<String>)
    ensures
        final(out).deep_view() == old(out).deep_view() + warnings_of(rust_type@),
    decreases rust_type,
{
    let ghost start = out.deep_view();
    match rust_type {
        RustType::Primitive(name) => {
            if crate::known_types::primitive_to_typescript(name.as_str()).is_none() {
                let mut warning = String::from_str("Unknown primitive type '");
                warning.append(name.as_str());
                warning.append("', using 'unknown'");
                out.push(warning);
            }
        },
        RustType::Vec(inner) => {
            collect_warnings(inner, out);
        },
        RustType::Option(inner) => {
            collect_warnings(inner, out);
        },
        RustType::Result(inner) => {
            collect_warnings(inner, out);
        },
        RustType::HashMap { key, value } => {
            collect_warnings(key, out);
            collect_warnings(value, out);
        },
        RustType::Tuple(types) => {
            proof {
                lemma_tuple_view(*types);
            }
            let mut i: usize = 0;
            while i < types.len()
                invariant
                    i <= types@.len(),
                    *rust_type == RustType::Tuple(*types),
                    out.deep_view() == start + warnings_of_first(types.deep_view(), i as nat),
                decreases types@.len() - i,
            {
                proof {
                    assert(rust_type->Tuple_0 == *types);
                }
                collect_warnings(&types[i], out);
                i += 1;
            }
        },
        RustType::Unknown(description) => {
            let mut warning = String::from_str("Unknown type '");
            warning.append(description.as_str());
            warning.append("', using 'unknown'");
            out.push(warning);
        },
        _ => {
        },
    }
}

/// The text for a well-known name depends on the name alone: two contexts
/// give the same text.
pub proof fn law_primitive_ignores_context(name: Seq<char>, a: GeneratorModel, b: GeneratorModel)
    ensures
        typescript_of(TypeExpr::Primitive(name), a) == typescript_of(TypeExpr::Primitive(name), b),
        typescript_of(TypeExpr::Primitive(name), a) == typescript_of_primitive(name),
{
}

/// An option of an option maps like the option alone: `null` is added once,
/// however deep the options are nested.
pub proof fn law_nested_optionals_collapse(inner: TypeExpr, ctx: GeneratorModel)
    ensures
        typescript_of(TypeExpr::Optional(Box::new(TypeExpr::Optional(Box::new(inner)))), ctx)
            == typescript_of(TypeExpr::Optional(Box::new(inner)), ctx),
        !is_nullable(inner) ==> typescript_of(TypeExpr::Optional(Box::new(inner)), ctx)
            == typescript_of(inner, ctx) + " | null"@,
        is_nullable(inner) ==> typescript_of(TypeExpr::Optional(Box::new(inner)), ctx)
            == typescript_of(inner, ctx),
{
    let option = TypeExpr::Optional(Box::new(inner));
    assert(is_nullable(option));
    assert(typescript_of(TypeExpr::Optional(Box::new(option)), ctx) == typescript_of(option, ctx));
}

/// The text of a type expression that admits `null` is a union: it holds a
/// `|`.
pub proof fn lemma_nullable_text_is_union(ty: TypeExpr, ctx: GeneratorModel)
    requires
        is_nullable(ty),
    ensures
        typescript_of(ty, ctx).contains('|'),
    decreases ty,
{
    match ty {
        TypeExpr::Optional(inner) => {
            if is_nullable(*inner) {
                lemma_nullable_text_is_union(*inner, ctx);
            } else {
                reveal_strlit(" | null");
                let text = typescript_of(*inner, ctx) + " | null"@;
                assert(text[typescript_of(*inner, ctx).len() as int + 1] == '|');
            }
        },
        TypeExpr::Fallible(ok) => {
            lemma_nullable_text_is_union(*ok, ctx);
        },
        _ => {},
    }
}

/// A list puts its element in parentheses exactly when the element's text
/// holds a `|`; the element of a list of options always does.
pub proof fn law_list_parenthesizes_unions(element: TypeExpr, ctx: GeneratorModel)
    ensures
        typescript_of(element, ctx).contains('|') ==> typescript_of(
            TypeExpr::List(Box::new(element)),
            ctx,
        ) == "("@ + typescript_of(element, ctx) + ")[]"@,
        !typescript_of(element, ctx).contains('|') ==> typescript_of(
            TypeExpr::List(Box::new(element)),
            ctx,
        ) == typescript_of(element, ctx) + "[]"@,
        typescript_of(TypeExpr::List(Box::new(TypeExpr::Optional(Box::new(element)))), ctx) == "("@
            + typescript_of(TypeExpr::Optional(Box::new(element)), ctx) + ")[]"@,
{
    lemma_nullable_text_is_union(TypeExpr::Optional(Box::new(element)), ctx);
}

/// The key of a map: `bool` and every composite key are widened to `string`,
/// `String` is `string` by the table, and a declared type keeps its own text.
pub proof fn law_map_key_widening(key: TypeExpr, value: TypeExpr, ctx: GeneratorModel)
    ensures
        key == TypeExpr::Primitive("bool"@) || !(key is Primitive || key is Named
            || key is GenericParam) ==> typescript_of(
            TypeExpr::Mapping { key: Box::new(key), value: Box::new(value) },
            ctx,
        ) == "Record<string, "@ + typescript_of(value, ctx) + ">"@,
        key == TypeExpr::Primitive("String"@) ==> typescript_of(
            TypeExpr::Mapping { key: Box::new(key), value: Box::new(value) },
            ctx,
        ) == "Record<"@ + "string"@ + ", "@ + typescript_of(value, ctx) + ">"@,
        key is Named ==> typescript_of(
            TypeExpr::Mapping { key: Box::new(key), value: Box::new(value) },
            ctx,
        ) == "Record<"@ + typescript_of(key, ctx) + ", "@ + typescript_of(value, ctx) + ">"@,
        key is Named && !ctx.custom_types.contains(key->Named_0) ==> typescript_of(key, ctx)
            == key->Named_0,
{
    reveal_strlit("bool");
    reveal_strlit("String");
    if key == TypeExpr::Primitive("String"@) {
        assert("String"@.len() == 6 && "bool"@.len() == 4);
    }
}

} // verus!
