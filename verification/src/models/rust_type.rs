//! Type expressions.

use vstd::prelude::*;

verus! {

/// A Rust type expression as it appears in a signature or a field.
#[derive(Debug)]
pub enum RustType {
    /// A well-known type, by its name (`String`, `i32`, `bool`, ...).
    Primitive(String),
    /// `Vec<T>` or a slice of `T`.
    Vec(Box<RustType>),
    /// `Option<T>`.
    Option(Box<RustType>),
    /// `Result<T, E>`: only the success type is kept.
    Result(Box<RustType>),
    /// `HashMap<K, V>` or `BTreeMap<K, V>`.
    HashMap { key: Box<RustType>, value: Box<RustType> },
    /// A tuple of types.
    Tuple(Vec<RustType>),
    /// A reference to a declared struct or enum, by its name.
    Custom(String),
    /// A generic parameter of the enclosing declaration.
    Generic(String),
    /// The unit type `()`.
    Unit,
    /// A type expression that could not be classified, with a description.
    Unknown(String),
}

/// The mathematical model of a type expression.
pub enum TypeExpr {
    Primitive(Seq<char>),
    List(Box<TypeExpr>),
    Optional(Box<TypeExpr>),
    Fallible(Box<TypeExpr>),
    Mapping { key: Box<TypeExpr>, value: Box<TypeExpr> },
    Tuple(Seq<TypeExpr>),
    Named(Seq<char>),
    GenericParam(Seq<char>),
    Unit,
    Unrecognized(Seq<char>),
}

impl RustType {
    /// The model of this type expression.
    pub open spec fn model(self) -> TypeExpr
        decreases self,
    {
        match self {
            RustType::Primitive(name) => TypeExpr::Primitive(name@),
            RustType::Vec(inner) => TypeExpr::List(Box::new(inner.model())),
            RustType::Option(inner) => TypeExpr::Optional(Box::new(inner.model())),
            RustType::Result(ok) => TypeExpr::Fallible(Box::new(ok.model())),
            RustType::HashMap { key, value } => TypeExpr::Mapping {
                key: Box::new(key.model()),
                value: Box::new(value.model()),
            },
            RustType::Tuple(types) => TypeExpr::Tuple(
                Seq::new(
                    types@.len(),
                    |i: int|
                        if 0 <= i < types@.len() {
                            types@[i].model()
                        } else {
                            TypeExpr::Unit
                        },
                ),
            ),
            RustType::Custom(name) => TypeExpr::Named(name@),
            RustType::Generic(name) => TypeExpr::GenericParam(name@),
            RustType::Unit => TypeExpr::Unit,
            RustType::Unknown(description) => TypeExpr::Unrecognized(description@),
        }
    }
}

impl View for RustType {
    type V = TypeExpr;

    open spec fn view(&self) -> TypeExpr {
        self.model()
    }
}

impl DeepView for RustType {
    type V = TypeExpr;

    open spec fn deep_view(&self) -> TypeExpr {
        self@
    }
}

impl Clone for RustType {
    fn clone(&self) -> (r: Self)
        ensures
            r@ == self@,
        decreases self,
    {
        match self {
            RustType::Primitive(name) => RustType::Primitive(name.clone()),
            RustType::Vec(inner) => RustType::Vec(Box::new((**inner).clone())),
            RustType::Option(inner) => RustType::Option(Box::new((**inner).clone())),
            RustType::Result(ok) => RustType::Result(Box::new((**ok).clone())),
            RustType::HashMap { key, value } => RustType::HashMap {
                key: Box::new((**key).clone()),
                value: Box::new((**value).clone()),
            },
            RustType::Tuple(types) => {
                let mut copies: Vec<RustType> = Vec::new();
                let mut i: usize = 0;
                while i < types.len()
                    invariant
                        i <= types@.len(),
                        copies@.len() == i,
                        *self == RustType::Tuple(*types),
                        forall|j: int| 0 <= j < i ==> copies@[j]@ == types@[j]@,
                    decreases types@.len() - i,
                {
                    proof {
                        assert(self->Tuple_0 == *types);
                    }
                    copies.push(types[i].clone());
                    i += 1;
                }
                let r = RustType::Tuple(copies);
                assert(r@->Tuple_0 =~= self@->Tuple_0);
                r
            },
            RustType::Custom(name) => RustType::Custom(name.clone()),
            RustType::Generic(name) => RustType::Generic(name.clone()),
            RustType::Unit => RustType::Unit,
            RustType::Unknown(description) => RustType::Unknown(description.clone()),
        }
    }
}

/// The model of a tuple is the sequence of its members' models.
pub proof fn lemma_tuple_view(types: Vec<RustType>)
    ensures
        RustType::Tuple(types)@ == TypeExpr::Tuple(types.deep_view()),
{
    assert(RustType::Tuple(types)@->Tuple_0 =~= types.deep_view());
}

} // verus!
