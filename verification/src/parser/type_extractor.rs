//! From the syntax of a type to a type expression.

use vstd::prelude::*;
use crate::known_types::{
    is_bool_name, is_bytes_name, is_external_number_name, is_external_string_name,
    is_external_string_type, is_float_name, is_json_value_name, is_primitive_type,
    is_signed_integer_name, is_string_name, is_unsigned_integer_name,
};
use crate::models::rust_type::{lemma_tuple_view as lemma_tuple_model, RustType, TypeExpr};
use crate::names::NameSet;
use crate::syntax::{lemma_tuple_view, TypeSyntax, TypeTree};
use crate::text::str_eq;

verus! {

/// Names that stand for a well-known type and keep their own name.
pub open spec fn keeps_its_name(name: Seq<char>) -> bool {
    is_signed_integer_name(name) || is_unsigned_integer_name(name) || is_float_name(name)
        || is_bool_name(name) || is_external_string_name(name) || is_external_number_name(name)
        || is_json_value_name(name) || is_bytes_name(name)
}

/// The type expression that a type's syntax stands for, inside a declaration
/// with the given generic parameters.
///
/// A path is read by its last segment. In order: a generic parameter of the
/// declaration; a well-known name; `Vec`, `Option`, `Result` with their first
/// argument; `HashMap` and `BTreeMap` with their first two; any other name, a
/// reference to a declared type. A reference stands for what it points to, a
/// slice for a list.
pub open spec fn type_expr_of(ty: TypeTree, generics: Set<Seq<char>>) -> TypeExpr
    decreases ty,
{
    match ty {
        TypeTree::Path { name, args } => {
            if generics.contains(name) {
                TypeExpr::GenericParam(name)
            } else if is_string_name(name) {
                TypeExpr::Primitive("String"@)
            } else if keeps_its_name(name) {
                TypeExpr::Primitive(name)
            } else if name == "Vec"@ {
                if args.len() > 0 && args[0] is Some {
                    TypeExpr::List(Box::new(type_expr_of(args[0]->Some_0, generics)))
                } else {
                    TypeExpr::Unrecognized("Vec<?>"@)
                }
            } else if name == "Option"@ {
                if args.len() > 0 && args[0] is Some {
                    TypeExpr::Optional(Box::new(type_expr_of(args[0]->Some_0, generics)))
                } else {
                    TypeExpr::Unrecognized("Option<?>"@)
                }
            } else if name == "Result"@ {
                if args.len() > 0 && args[0] is Some {
                    TypeExpr::Fallible(Box::new(type_expr_of(args[0]->Some_0, generics)))
                } else {
                    TypeExpr::Unrecognized("Result<?>"@)
                }
            } else if name == "HashMap"@ || name == "BTreeMap"@ {
                if args.len() > 1 && args[0] is Some && args[1] is Some {
                    TypeExpr::Mapping {
                        key: Box::new(type_expr_of(args[0]->Some_0, generics)),
                        value: Box::new(type_expr_of(args[1]->Some_0, generics)),
                    }
                } else {
                    TypeExpr::Unrecognized("HashMap<?, ?>"@)
                }
            } else {
                TypeExpr::Named(name)
            }
        },
        TypeTree::EmptyPath => TypeExpr::Unrecognized("unknown path"@),
        TypeTree::Tuple(elems) => {
            if elems.len() == 0 {
                TypeExpr::Unit
            } else {
                TypeExpr::Tuple(
                    Seq::new(
                        elems.len(),
                        |i: int|
                            if 0 <= i < elems.len() {
                                type_expr_of(elems[i], generics)
                            } else {
                                TypeExpr::Unit
                            },
                    ),
                )
            }
        },
        TypeTree::Reference(inner) => type_expr_of(*inner, generics),
        TypeTree::Slice(inner) => TypeExpr::List(Box::new(type_expr_of(*inner, generics))),
        TypeTree::Other(description) => TypeExpr::Unrecognized(description),
    }
}

fn is_known(name: &str) -> (r: bool)
    ensures
        r == is_known_name(name@),
{
    (is_primitive_type(name) || is_external_string_type(name) || str_eq(name, "Duration")
        || str_eq(name, "Value") || str_eq(name, "Bytes"))
}

/// Names of the fixed table: the built-in types and the well-known library
/// types.
pub open spec fn is_known_name(name: Seq<char>) -> bool {
    is_string_name(name) || keeps_its_name(name)
}

/// Reads a type outside any generic declaration.
pub fn parse_type(ty: &TypeSyntax) -> (r: RustType)
    ensures
        r@ == type_expr_of(ty@, Set::empty()),
{
    let generics = NameSet::new();
    parse_type_with_context(ty, &generics)
}

/// Reads a type inside a declaration with the given generic parameters.
pub fn parse_type_with_context(ty: &TypeSyntax, generic_params: &NameSet) -> (r: RustType)
    ensures
        r@ == type_expr_of(ty@, generic_params@),
    decreases ty,
{
    match ty {
        TypeSyntax::Path { name, args } => {
            let n = name.as_str();
            if generic_params.contains(n) {
                RustType::Generic(name.clone())
            } else if str_eq(n, "String") || str_eq(n, "str") || str_eq(n, "char") {
                RustType::Primitive(String::from_str("String"))
            } else if is_known(n) {
                RustType::Primitive(name.clone())
            } else if str_eq(n, "Vec") {
                if args.len() > 0 {
                    if let Some(inner) = &args[0] {
                        return RustType::Vec(
                            Box::new(parse_type_with_context(inner, generic_params)),
                        );
                    }
                }
                RustType::Unknown(String::from_str("Vec<?>"))
            } else if str_eq(n, "Option") {
                if args.len() > 0 {
                    if let Some(inner) = &args[0] {
                        return RustType::Option(
                            Box::new(parse_type_with_context(inner, generic_params)),
                        );
                    }
                }
                RustType::Unknown(String::from_str("Option<?>"))
            } else if str_eq(n, "Result") {
                if args.len() > 0 {
                    if let Some(inner) = &args[0] {
                        return RustType::Result(
                            Box::new(parse_type_with_context(inner, generic_params)),
                        );
                    }
                }
                RustType::Unknown(String::from_str("Result<?>"))
            } else if str_eq(n, "HashMap") || str_eq(n, "BTreeMap") {
                if args.len() > 1 {
                    if let Some(key) = &args[0] {
                        if let Some(value) = &args[1] {
                            return RustType::HashMap {
                                key: Box::new(parse_type_with_context(key, generic_params)),
                                value: Box::new(parse_type_with_context(value, generic_params)),
                            };
                        }
                    }
                }
                RustType::Unknown(String::from_str("HashMap<?, ?>"))
            } else {
                RustType::Custom(name.clone())
            }
        },
        TypeSyntax::EmptyPath => RustType::Unknown(String::from_str("unknown path")),
        TypeSyntax::Tuple(elems) => {
            if elems.len() == 0 {
                RustType::Unit
            } else {
                let mut types: Vec<RustType> = Vec::new();
                let mut i: usize = 0;
                while i < elems.len()
                    invariant
                        i <= elems@.len(),
                        types@.len() == i,
                        *ty == TypeSyntax::Tuple(*elems),
                        forall|j: int|
                            0 <= j < i ==> types@[j]@ == type_expr_of(
                                elems@[j]@,
                                generic_params@,
                            ),
                    decreases elems@.len() - i,
                {
                    proof {
                        assert(ty->Tuple_0 == *elems);
                    }
                    types.push(parse_type_with_context(&elems[i], generic_params));
                    i += 1;
                }
                let r = RustType::Tuple(types);
                proof {
                    lemma_tuple_model(types);
                    assert(types.deep_view() =~= type_expr_of(ty@, generic_params@)->Tuple_0);
                }
                r
            }
        },
        TypeSyntax::Reference(inner) => parse_type_with_context(inner, generic_params),
        TypeSyntax::Slice(inner) => RustType::Vec(
            Box::new(parse_type_with_context(inner, generic_params)),
        ),
        TypeSyntax::Other(description) => RustType::Unknown(description.clone()),
    }
}

/// Whether every generic parameter in the type expression is one of
/// `generics`.
pub open spec fn generic_params_within(ty: TypeExpr, generics: Set<Seq<char>>) -> bool
    decreases ty,
{
    match ty {
        TypeExpr::GenericParam(name) => generics.contains(name),
        TypeExpr::List(inner) => generic_params_within(*inner, generics),
        TypeExpr::Optional(inner) => generic_params_within(*inner, generics),
        TypeExpr::Fallible(inner) => generic_params_within(*inner, generics),
        TypeExpr::Mapping { key, value } => generic_params_within(*key, generics)
            && generic_params_within(*value, generics),
        TypeExpr::Tuple(types) => forall|i: int|
            0 <= i < types.len() ==> generic_params_within(#[trigger] types[i], generics),
        _ => true,
    }
}

/// A type expression holds a generic parameter only for a name that is a
/// generic parameter of the enclosing declaration; the same name elsewhere is
/// a reference to a declared type.
pub proof fn law_generic_params_are_declared(ty: TypeTree, generics: Set<Seq<char>>)
    ensures
        generic_params_within(type_expr_of(ty, generics), generics),
        ty is Path && !generics.contains(ty->Path_name) ==> !(type_expr_of(ty, generics)
            is GenericParam),
    decreases ty,
{
    match ty {
        TypeTree::Path { name, args } => {
            if args.len() > 0 && args[0] is Some {
                law_generic_params_are_declared(args[0]->Some_0, generics);
            }
            if args.len() > 1 && args[1] is Some {
                law_generic_params_are_declared(args[1]->Some_0, generics);
            }
        },
        TypeTree::Tuple(elems) => {
            let result = type_expr_of(ty, generics);
            if elems.len() > 0 {
                assert forall|i: int| 0 <= i < result->Tuple_0.len() implies generic_params_within(
                    #[trigger] result->Tuple_0[i],
                    generics,
                ) by {
                    law_generic_params_are_declared(elems[i], generics);
                }
            }
        },
        TypeTree::Reference(inner) => {
            law_generic_params_are_declared(*inner, generics);
        },
        TypeTree::Slice(inner) => {
            law_generic_params_are_declared(*inner, generics);
        },
        _ => {},
    }
}

} // verus!
