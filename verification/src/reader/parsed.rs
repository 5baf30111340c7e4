//! What the `syn` parser hands over: its syntax nodes, the names of what
//! they hold, and one accessor for each node that is read.
//!
//! Everything in this file is trusted: the contracts state what the `syn`
//! source shows, and nothing here is proved.

use vstd::prelude::*;
use crate::syntax::{
    AttributeTree, FieldTree, FieldsTree, FnArgTree, FnTree, ImplTree, ItemTree, MetaTree,
    PathSyntax, PathTree, StructTree, EnumTree, TypeTree, ImportTree, VariantTree,
};

verus! {

/// A syntax error of the parser, `syn::Error`. Its inside is not visible here.
#[verifier::external_type_specification]
#[verifier::external_body]
pub struct ExError(syn::Error);

/// A declaration, `syn::Item`. Its inside is not visible here.
#[verifier::external_type_specification]
#[verifier::external_body]
pub struct ExItem(syn::Item);

/// The signature of a function, `syn::Signature`. Its inside is not visible here.
#[verifier::external_type_specification]
#[verifier::external_body]
pub struct ExSignature(syn::Signature);

/// An attribute, `syn::Attribute`. Its inside is not visible here.
#[verifier::external_type_specification]
#[verifier::external_body]
pub struct ExAttribute(syn::Attribute);

/// A generic parameter of a declaration, `syn::GenericParam`. Its inside is not visible here.
#[verifier::external_type_specification]
#[verifier::external_body]
pub struct ExGenericParam(syn::GenericParam);

/// The fields of a struct or of a variant, `syn::Fields`. Its inside is not visible here.
#[verifier::external_type_specification]
#[verifier::external_body]
pub struct ExFields(syn::Fields);

/// A field, `syn::Field`. Its inside is not visible here.
#[verifier::external_type_specification]
#[verifier::external_body]
pub struct ExField(syn::Field);

/// A variant of an enum, `syn::Variant`. Its inside is not visible here.
#[verifier::external_type_specification]
#[verifier::external_body]
pub struct ExVariant(syn::Variant);

/// A parameter of a function, `syn::FnArg`. Its inside is not visible here.
#[verifier::external_type_specification]
#[verifier::external_body]
pub struct ExFnArg(syn::FnArg);

/// An item of an impl block, `syn::ImplItem`. Its inside is not visible here.
#[verifier::external_type_specification]
#[verifier::external_body]
pub struct ExImplItem(syn::ImplItem);

/// A statement of a block, `syn::Stmt`. Its inside is not visible here.
#[verifier::external_type_specification]
#[verifier::external_body]
pub struct ExStmt(syn::Stmt);

/// A type, `syn::Type`. Its inside is not visible here.
#[verifier::external_type_specification]
#[verifier::external_body]
pub struct ExType(syn::Type);

/// A path, `syn::Path`. Its inside is not visible here.
#[verifier::external_type_specification]
#[verifier::external_body]
pub struct ExPath(syn::Path);

/// A segment of a path, `syn::PathSegment`. Its inside is not visible here.
#[verifier::external_type_specification]
#[verifier::external_body]
pub struct ExPathSegment(syn::PathSegment);

/// An argument between angle brackets, `syn::GenericArgument`. Its inside is not visible here.
#[verifier::external_type_specification]
#[verifier::external_body]
pub struct ExGenericArgument(syn::GenericArgument);

/// The content of an attribute, `syn::Meta`. Its inside is not visible here.
#[verifier::external_type_specification]
#[verifier::external_body]
pub struct ExMeta(syn::Meta);

/// The tree of a `use` declaration, `syn::UseTree`. Its inside is not visible here.
#[verifier::external_type_specification]
#[verifier::external_body]
pub struct ExUseTree(syn::UseTree);

/// The items that `syn::parse_file` yields for a source text; `None` where it
/// reports a syntax error.
pub uninterp spec fn parsed_items(content: Seq<char>) -> Option<Seq<ItemTree>>;

/// The type that `syn::parse_str` yields for a text; `None` where it reports
/// a syntax error.
pub uninterp spec fn parsed_type(text: Seq<char>) -> Option<TypeTree>;

/// What an item holds.
pub uninterp spec fn item_tree(item: syn::Item) -> ItemTree;

/// What a signature holds: the name, the parameters, the declared return type.
pub uninterp spec fn signature_tree(sig: syn::Signature) -> (
    Seq<char>,
    Seq<FnArgTree>,
    Option<TypeTree>,
);

/// What an attribute holds.
pub uninterp spec fn attribute_tree(attr: syn::Attribute) -> AttributeTree;

/// The name of a generic parameter that is a type parameter.
pub uninterp spec fn generic_param_tree(param: syn::GenericParam) -> Option<Seq<char>>;

/// What a field list holds.
pub uninterp spec fn fields_tree(fields: syn::Fields) -> FieldsTree;

/// What a field holds.
pub uninterp spec fn field_tree(field: syn::Field) -> FieldTree;

/// What a variant holds.
pub uninterp spec fn variant_tree(variant: syn::Variant) -> VariantTree;

/// What a parameter holds.
pub uninterp spec fn fn_arg_tree(arg: syn::FnArg) -> FnArgTree;

/// The function that an item of an impl block is, if it is one.
pub uninterp spec fn impl_item_tree(item: syn::ImplItem) -> Option<FnTree>;

/// The item that a statement declares, if it declares one.
pub uninterp spec fn stmt_tree(stmt: syn::Stmt) -> Option<ItemTree>;

/// What a type holds.
pub uninterp spec fn type_tree(ty: syn::Type) -> TypeTree;

/// What a path holds.
pub uninterp spec fn path_tree(path: syn::Path) -> PathTree;

/// What a path segment holds: its identifier and its arguments between angle
/// brackets.
pub uninterp spec fn segment_tree(segment: syn::PathSegment) -> (Seq<char>, Seq<Option<TypeTree>>);

/// The type that a generic argument is, if it is one.
pub uninterp spec fn generic_argument_tree(arg: syn::GenericArgument) -> Option<TypeTree>;

/// What the content of an attribute holds.
pub uninterp spec fn meta_tree(meta: syn::Meta) -> MetaTree;

/// What a `use` tree holds.
pub uninterp spec fn use_tree(tree: syn::UseTree) -> ImportTree;

/// What each item of a list holds.
pub open spec fn item_trees(items: Seq<syn::Item>) -> Seq<ItemTree> {
    Seq::new(items.len(), |i: int| item_tree(items[i]))
}

/// What each attribute of a list holds.
pub open spec fn attribute_trees(attrs: Seq<syn::Attribute>) -> Seq<AttributeTree> {
    Seq::new(attrs.len(), |i: int| attribute_tree(attrs[i]))
}

/// What each generic parameter of a list holds.
pub open spec fn generic_param_trees(params: Seq<syn::GenericParam>) -> Seq<Option<Seq<char>>> {
    Seq::new(params.len(), |i: int| generic_param_tree(params[i]))
}

/// What each field of a list holds.
pub open spec fn field_trees(fields: Seq<syn::Field>) -> Seq<FieldTree> {
    Seq::new(fields.len(), |i: int| field_tree(fields[i]))
}

/// What each variant of a list holds.
pub open spec fn variant_trees(variants: Seq<syn::Variant>) -> Seq<VariantTree> {
    Seq::new(variants.len(), |i: int| variant_tree(variants[i]))
}

/// What each parameter of a list holds.
pub open spec fn fn_arg_trees(args: Seq<syn::FnArg>) -> Seq<FnArgTree> {
    Seq::new(args.len(), |i: int| fn_arg_tree(args[i]))
}

/// What each item of an impl block holds.
pub open spec fn impl_item_trees(items: Seq<syn::ImplItem>) -> Seq<Option<FnTree>> {
    Seq::new(items.len(), |i: int| impl_item_tree(items[i]))
}

/// What each statement of a list holds.
pub open spec fn stmt_trees(stmts: Seq<syn::Stmt>) -> Seq<Option<ItemTree>> {
    Seq::new(stmts.len(), |i: int| stmt_tree(stmts[i]))
}

/// What each type of a list holds.
pub open spec fn type_trees(types: Seq<syn::Type>) -> Seq<TypeTree> {
    Seq::new(types.len(), |i: int| type_tree(types[i]))
}

/// What each path of a list holds.
pub open spec fn path_trees(paths: Seq<syn::Path>) -> Seq<PathTree> {
    Seq::new(paths.len(), |i: int| path_tree(paths[i]))
}

/// What each generic argument of a list holds.
pub open spec fn generic_argument_trees(args: Seq<syn::GenericArgument>) -> Seq<Option<TypeTree>> {
    Seq::new(args.len(), |i: int| generic_argument_tree(args[i]))
}

/// What each attribute content of a list holds.
pub open spec fn meta_trees(metas: Seq<syn::Meta>) -> Seq<MetaTree> {
    Seq::new(metas.len(), |i: int| meta_tree(metas[i]))
}

/// What each `use` tree of a list holds.
pub open spec fn use_trees(trees: Seq<syn::UseTree>) -> Seq<ImportTree> {
    Seq::new(trees.len(), |i: int| use_tree(trees[i]))
}

/// The function with the given attributes and signature.
pub open spec fn fn_tree_of(attrs: Seq<syn::Attribute>, sig: syn::Signature) -> FnTree {
    FnTree {
        attrs: attribute_trees(attrs),
        name: signature_tree(sig).0,
        inputs: signature_tree(sig).1,
        output: signature_tree(sig).2,
    }
}

/// The parts of a field list.
pub enum FieldsShape {
    Named(Vec<syn::Field>),
    Unnamed(Vec<syn::Field>),
    Unit,
}

/// The tree that the parts of a field list stand for.
pub open spec fn fields_shape_tree(shape: FieldsShape) -> FieldsTree {
    match shape {
        FieldsShape::Named(fields) => FieldsTree::Named(field_trees(fields@)),
        FieldsShape::Unnamed(fields) => FieldsTree::Unnamed(field_trees(fields@)),
        FieldsShape::Unit => FieldsTree::Unit,
    }
}

/// The parts of a type.
pub enum TypeShape {
    /// A path type, with its last segment if it has one.
    Path(Option<syn::PathSegment>),
    Tuple(Vec<syn::Type>),
    Reference(syn::Type),
    Slice(syn::Type),
    /// Any other type, with its `Debug` rendering.
    Other(String),
}

/// The tree that the parts of a type stand for.
pub open spec fn type_shape_tree(shape: TypeShape) -> TypeTree {
    match shape {
        TypeShape::Path(Some(segment)) => TypeTree::Path {
            name: segment_tree(segment).0,
            args: segment_tree(segment).1,
        },
        TypeShape::Path(None) => TypeTree::EmptyPath,
        TypeShape::Tuple(elems) => TypeTree::Tuple(type_trees(elems@)),
        TypeShape::Reference(inner) => TypeTree::Reference(Box::new(type_tree(inner))),
        TypeShape::Slice(inner) => TypeTree::Slice(Box::new(type_tree(inner))),
        TypeShape::Other(description) => TypeTree::Other(description@),
    }
}

/// The parts of an attribute's content.
pub enum MetaShape {
    Path(syn::Path),
    List(syn::Path),
    /// A name and a value, with the value's text where it is a string literal.
    NameValue(syn::Path, Option<String>),
}

/// The tree that the parts of an attribute's content stand for.
pub open spec fn meta_shape_tree(shape: MetaShape) -> MetaTree {
    match shape {
        MetaShape::Path(path) => MetaTree::Path(path_tree(path)),
        MetaShape::List(path) => MetaTree::List(path_tree(path)),
        MetaShape::NameValue(path, value) => MetaTree::NameValue {
            path: path_tree(path),
            value: value.deep_view(),
        },
    }
}

/// The parts of a `use` tree.
pub enum UseShape {
    Path(String, syn::UseTree),
    Name(String),
    Rename(String, String),
    Glob,
    Group(Vec<syn::UseTree>),
}

/// The tree that the parts of a `use` tree stand for.
pub open spec fn use_shape_tree(shape: UseShape) -> ImportTree {
    match shape {
        UseShape::Path(name, rest) => ImportTree::Path(name@, Box::new(use_tree(rest))),
        UseShape::Name(name) => ImportTree::Name(name@),
        UseShape::Rename(name, alias) => ImportTree::Rename(name@, alias@),
        UseShape::Glob => ImportTree::Glob,
        UseShape::Group(items) => ImportTree::Group(use_trees(items@)),
    }
}

/// Parses a source file and hands over its items.
///
/// Trusted: `syn::parse_file`. The result depends on the text alone: the
/// items of the file, or a syntax error.
#[verifier::external_body]
pub(crate) fn parse_items(content: &str) -> (r: Result<Vec<syn::Item>, syn::Error>)
    ensures
        match r {
            Ok(items) => parsed_items(content@) == Some(item_trees(items@)),
            Err(_) => parsed_items(content@) is None,
        },
{
    syn::parse_file(content).map(|file| file.items)
}

/// Parses a type.
///
/// Trusted: `syn::parse_str` at `syn::Type`. The result depends on the text
/// alone: the type, or a syntax error.
#[verifier::external_body]
pub(crate) fn parse_type_text(text: &str) -> (r: Result<syn::Type, syn::Error>)
    ensures
        match r {
            Ok(ty) => parsed_type(text@) == Some(type_tree(ty)),
            Err(_) => parsed_type(text@) is None,
        },
{
    syn::parse_str::<syn::Type>(text)
}

/// The message of a syntax error.
///
/// Trusted: the `Display` rendering of `syn::Error`. Nothing is claimed of
/// the text.
#[verifier::external_body]
pub(crate) fn error_message(error: &syn::Error) -> String {
    error.to_string()
}

/// The attributes and the signature of a free function.
///
/// Trusted: the variant `syn::Item::Fn` and the fields `attrs` and `sig` of
/// `syn::ItemFn`.
#[verifier::external_body]
pub(crate) fn item_as_fn(item: &syn::Item) -> (r: Option<(Vec<syn::Attribute>, syn::Signature)>)
    ensures
        match r {
            Some(parts) => item_tree(*item) == ItemTree::Fn(fn_tree_of(parts.0@, parts.1)),
            None => !(item_tree(*item) is Fn),
        },
{
    match item {
        syn::Item::Fn(f) => Some((f.attrs.clone(), f.sig.clone())),
        _ => None,
    }
}

/// The trait path, the self type and the items of an impl block.
///
/// Trusted: the variant `syn::Item::Impl` and the fields `trait_`, `self_ty`
/// and `items` of `syn::ItemImpl`.
#[verifier::external_body]
pub(crate) fn item_as_impl(item: &syn::Item) -> (r: Option<
    (Option<syn::Path>, syn::Type, Vec<syn::ImplItem>),
>)
    ensures
        match r {
            Some(parts) => item_tree(*item) == ItemTree::Impl(
                ImplTree {
                    trait_path: match parts.0 {
                        Some(path) => Some(path_tree(path)),
                        None => None,
                    },
                    self_ty: type_tree(parts.1),
                    items: impl_item_trees(parts.2@),
                },
            ),
            None => !(item_tree(*item) is Impl),
        },
{
    match item {
        syn::Item::Impl(i) => Some(
            (i.trait_.as_ref().map(|t| t.1.clone()), (*i.self_ty).clone(), i.items.clone()),
        ),
        _ => None,
    }
}

/// The items of a module's body; the inner `None` for a module declared
/// without a body, which holds no item.
///
/// Trusted: the variant `syn::Item::Mod` and the field `content` of
/// `syn::ItemMod`.
#[verifier::external_body]
pub(crate) fn item_as_mod(item: &syn::Item) -> (r: Option<Option<Vec<syn::Item>>>)
    ensures
        match r {
            Some(Some(items)) => item_tree(*item) == ItemTree::Mod(item_trees(items@)),
            Some(None) => item_tree(*item) == ItemTree::Mod(Seq::empty()),
            None => !(item_tree(*item) is Mod),
        },
{
    match item {
        syn::Item::Mod(m) => Some(m.content.as_ref().map(|c| c.1.clone())),
        _ => None,
    }
}

/// The name, attributes, generic parameters and fields of a struct.
///
/// Trusted: the variant `syn::Item::Struct` and the fields `ident`, `attrs`,
/// `generics.params` and `fields` of `syn::ItemStruct`.
#[verifier::external_body]
pub(crate) fn item_as_struct(item: &syn::Item) -> (r: Option<
    (String, Vec<syn::Attribute>, Vec<syn::GenericParam>, syn::Fields),
>)
    ensures
        match r {
            Some(parts) => item_tree(*item) == ItemTree::Struct(
                StructTree {
                    name: parts.0@,
                    attrs: attribute_trees(parts.1@),
                    generics: generic_param_trees(parts.2@),
                    fields: fields_tree(parts.3),
                },
            ),
            None => !(item_tree(*item) is Struct),
        },
{
    match item {
        syn::Item::Struct(s) => Some(
            (
                s.ident.to_string(),
                s.attrs.clone(),
                s.generics.params.iter().cloned().collect(),
                s.fields.clone(),
            ),
        ),
        _ => None,
    }
}

/// The name, attributes, generic parameters and variants of an enum.
///
/// Trusted: the variant `syn::Item::Enum` and the fields `ident`, `attrs`,
/// `generics.params` and `variants` of `syn::ItemEnum`.
#[verifier::external_body]
pub(crate) fn item_as_enum(item: &syn::Item) -> (r: Option<
    (String, Vec<syn::Attribute>, Vec<syn::GenericParam>, Vec<syn::Variant>),
>)
    ensures
        match r {
            Some(parts) => item_tree(*item) == ItemTree::Enum(
                EnumTree {
                    name: parts.0@,
                    attrs: attribute_trees(parts.1@),
                    generics: generic_param_trees(parts.2@),
                    variants: variant_trees(parts.3@),
                },
            ),
            None => !(item_tree(*item) is Enum),
        },
{
    match item {
        syn::Item::Enum(e) => Some(
            (
                e.ident.to_string(),
                e.attrs.clone(),
                e.generics.params.iter().cloned().collect(),
                e.variants.iter().cloned().collect(),
            ),
        ),
        _ => None,
    }
}

/// The statements of a constant's initializer where that is a block; the
/// inner `None` for any other initializer, which holds no statement.
///
/// Trusted: the variant `syn::Item::Const`, the field `expr` of
/// `syn::ItemConst`, the variant `syn::Expr::Block` and the statements of its
/// block.
#[verifier::external_body]
pub(crate) fn item_as_const(item: &syn::Item) -> (r: Option<Option<Vec<syn::Stmt>>>)
    ensures
        match r {
            Some(Some(stmts)) => item_tree(*item) == ItemTree::Const(stmt_trees(stmts@)),
            Some(None) => item_tree(*item) == ItemTree::Const(Seq::empty()),
            None => !(item_tree(*item) is Const),
        },
{
    match item {
        syn::Item::Const(c) => match &*c.expr {
            syn::Expr::Block(b) => Some(Some(b.block.stmts.clone())),
            _ => Some(None),
        },
        _ => None,
    }
}

/// The tree of a `use` declaration.
///
/// Trusted: the variant `syn::Item::Use` and the field `tree` of
/// `syn::ItemUse`.
#[verifier::external_body]
pub(crate) fn item_as_use(item: &syn::Item) -> (r: Option<syn::UseTree>)
    ensures
        match r {
            Some(tree) => item_tree(*item) == ItemTree::Use(use_tree(tree)),
            None => !(item_tree(*item) is Use),
        },
{
    match item {
        syn::Item::Use(u) => Some(u.tree.clone()),
        _ => None,
    }
}

/// The attributes and the signature of a method.
///
/// Trusted: the variant `syn::ImplItem::Fn` and the fields `attrs` and `sig`
/// of `syn::ImplItemFn`.
#[verifier::external_body]
pub(crate) fn impl_item_as_fn(item: &syn::ImplItem) -> (r: Option<
    (Vec<syn::Attribute>, syn::Signature),
>)
    ensures
        match r {
            Some(parts) => impl_item_tree(*item) == Some(fn_tree_of(parts.0@, parts.1)),
            None => impl_item_tree(*item) is None,
        },
{
    match item {
        syn::ImplItem::Fn(f) => Some((f.attrs.clone(), f.sig.clone())),
        _ => None,
    }
}

/// The item that a statement declares.
///
/// Trusted: the variant `syn::Stmt::Item`.
#[verifier::external_body]
pub(crate) fn stmt_as_item(stmt: &syn::Stmt) -> (r: Option<syn::Item>)
    ensures
        match r {
            Some(item) => stmt_tree(*stmt) == Some(item_tree(item)),
            None => stmt_tree(*stmt) is None,
        },
{
    match stmt {
        syn::Stmt::Item(item) => Some(item.clone()),
        _ => None,
    }
}

/// The name, the parameters and the declared return type of a signature.
///
/// Trusted: the fields `ident`, `inputs` and `output` of `syn::Signature`,
/// and the variants of `syn::ReturnType`.
#[verifier::external_body]
pub(crate) fn open_signature(sig: &syn::Signature) -> (r: (
    String,
    Vec<syn::FnArg>,
    Option<syn::Type>,
))
    ensures
        signature_tree(*sig) == (
            r.0@,
            fn_arg_trees(r.1@),
            match r.2 {
                Some(ty) => Some(type_tree(ty)),
                None => None,
            },
        ),
{
    let output = match &sig.output {
        syn::ReturnType::Type(_, ty) => Some((**ty).clone()),
        syn::ReturnType::Default => None,
    };
    (sig.ident.to_string(), sig.inputs.iter().cloned().collect(), output)
}

/// The name and the type of a parameter; `None` for `self`. The name is
/// there where the pattern is a plain identifier.
///
/// Trusted: the variants of `syn::FnArg`, the fields `pat` and `ty` of
/// `syn::PatType`, and the variant `syn::Pat::Ident`.
#[verifier::external_body]
pub(crate) fn open_fn_arg(arg: &syn::FnArg) -> (r: Option<(Option<String>, syn::Type)>)
    ensures
        match r {
            Some(parts) => fn_arg_tree(*arg) == (FnArgTree::Typed {
                name: parts.0.deep_view(),
                ty: type_tree(parts.1),
            }),
            None => fn_arg_tree(*arg) == FnArgTree::Receiver,
        },
{
    match arg {
        syn::FnArg::Typed(typed) => {
            let name = match &*typed.pat {
                syn::Pat::Ident(ident) => Some(ident.ident.to_string()),
                _ => None,
            };
            Some((name, (*typed.ty).clone()))
        },
        syn::FnArg::Receiver(_) => None,
    }
}

/// The name of a generic parameter that is a type parameter.
///
/// Trusted: the variant `syn::GenericParam::Type` and the field `ident` of
/// `syn::TypeParam`.
#[verifier::external_body]
pub(crate) fn generic_param_name(param: &syn::GenericParam) -> (r: Option<String>)
    ensures
        r.deep_view() == generic_param_tree(*param),
{
    match param {
        syn::GenericParam::Type(type_param) => Some(type_param.ident.to_string()),
        _ => None,
    }
}

/// The fields of a field list, by its kind.
///
/// Trusted: the variants of `syn::Fields`.
#[verifier::external_body]
pub(crate) fn open_fields(fields: &syn::Fields) -> (r: FieldsShape)
    ensures
        fields_shape_tree(r) == fields_tree(*fields),
{
    match fields {
        syn::Fields::Named(named) => FieldsShape::Named(named.named.iter().cloned().collect()),
        syn::Fields::Unnamed(unnamed) => FieldsShape::Unnamed(
            unnamed.unnamed.iter().cloned().collect(),
        ),
        syn::Fields::Unit => FieldsShape::Unit,
    }
}

/// The name, the attributes and the type of a field.
///
/// Trusted: the fields `ident`, `attrs` and `ty` of `syn::Field`.
#[verifier::external_body]
pub(crate) fn open_field(field: &syn::Field) -> (r: (Option<String>, Vec<syn::Attribute>, syn::Type))
    ensures
        field_tree(*field) == (FieldTree {
            name: r.0.deep_view(),
            attrs: attribute_trees(r.1@),
            ty: type_tree(r.2),
        }),
{
    (field.ident.as_ref().map(|i| i.to_string()), field.attrs.clone(), field.ty.clone())
}

/// The name, the attributes and the fields of a variant.
///
/// Trusted: the fields `ident`, `attrs` and `fields` of `syn::Variant`.
#[verifier::external_body]
pub(crate) fn open_variant(variant: &syn::Variant) -> (r: (String, Vec<syn::Attribute>, syn::Fields))
    ensures
        variant_tree(*variant) == (VariantTree {
            name: r.0@,
            attrs: attribute_trees(r.1@),
            fields: fields_tree(r.2),
        }),
{
    (variant.ident.to_string(), variant.attrs.clone(), variant.fields.clone())
}

/// The parts of a type, by its kind. A path type gives its last segment; a
/// type of a kind that is not read gives its `Debug` rendering.
///
/// Trusted: the variants `Path`, `Tuple`, `Reference` and `Slice` of
/// `syn::Type`, `Punctuated::last`, and the `Debug` impl of `syn::Type`. The
/// rendering shows no source positions as long as `proc-macro2` is built
/// without span locations, which is how this crate asks for it.
#[verifier::external_body]
pub(crate) fn open_type(ty: &syn::Type) -> (r: TypeShape)
    ensures
        type_shape_tree(r) == type_tree(*ty),
{
    match ty {
        syn::Type::Path(p) => TypeShape::Path(p.path.segments.last().cloned()),
        syn::Type::Tuple(t) => TypeShape::Tuple(t.elems.iter().cloned().collect()),
        syn::Type::Reference(r) => TypeShape::Reference((*r.elem).clone()),
        syn::Type::Slice(s) => TypeShape::Slice((*s.elem).clone()),
        other => TypeShape::Other(format!("{:?}", other)),
    }
}

/// The identifier of a path segment and its arguments between angle
/// brackets; `None` where it has no arguments or has them in parentheses,
/// which counts as no argument.
///
/// Trusted: the fields `ident` and `arguments` of `syn::PathSegment` and the
/// variant `syn::PathArguments::AngleBracketed`.
#[verifier::external_body]
pub(crate) fn open_segment(segment: &syn::PathSegment) -> (r: (
    String,
    Option<Vec<syn::GenericArgument>>,
))
    ensures
        segment_tree(*segment) == (
            r.0@,
            match r.1 {
                Some(args) => generic_argument_trees(args@),
                None => Seq::empty(),
            },
        ),
{
    let args = match &segment.arguments {
        syn::PathArguments::AngleBracketed(angle) => Some(angle.args.iter().cloned().collect()),
        _ => None,
    };
    (segment.ident.to_string(), args)
}

/// The type that a generic argument is.
///
/// Trusted: the variant `syn::GenericArgument::Type`.
#[verifier::external_body]
pub(crate) fn generic_argument_type(arg: &syn::GenericArgument) -> (r: Option<syn::Type>)
    ensures
        match r {
            Some(ty) => generic_argument_tree(*arg) == Some(type_tree(ty)),
            None => generic_argument_tree(*arg) is None,
        },
{
    match arg {
        syn::GenericArgument::Type(ty) => Some(ty.clone()),
        _ => None,
    }
}

/// The identifiers of a path's segments, and the path as one identifier.
///
/// Trusted: the fields `segments` of `syn::Path` and `ident` of
/// `syn::PathSegment`, and `syn::Path::get_ident`, which gives the identifier
/// of a path that has one segment, no leading colons and no arguments.
#[verifier::external_body]
pub(crate) fn open_path(path: &syn::Path) -> (r: PathSyntax)
    ensures
        r@ == path_tree(*path),
{
    PathSyntax {
        segments: path.segments.iter().map(|s| s.ident.to_string()).collect(),
        ident: path.get_ident().map(|i| i.to_string()),
    }
}

/// The parts of an attribute's content, by its kind. The value of
/// `name = value` is given where it is a string literal.
///
/// Trusted: the variants of `syn::Meta` with their field `path`, the variants
/// `syn::Expr::Lit` and `syn::Lit::Str`, and `syn::LitStr::value`.
#[verifier::external_body]
pub(crate) fn open_meta(meta: &syn::Meta) -> (r: MetaShape)
    ensures
        meta_shape_tree(r) == meta_tree(*meta),
{
    match meta {
        syn::Meta::Path(path) => MetaShape::Path(path.clone()),
        syn::Meta::List(list) => MetaShape::List(list.path.clone()),
        syn::Meta::NameValue(nv) => {
            let value = match &nv.value {
                syn::Expr::Lit(syn::ExprLit { lit: syn::Lit::Str(s), .. }) => Some(s.value()),
                _ => None,
            };
            MetaShape::NameValue(nv.path.clone(), value)
        },
    }
}

/// The content of an attribute.
///
/// Trusted: the field `meta` of `syn::Attribute`.
#[verifier::external_body]
pub(crate) fn attribute_meta(attr: &syn::Attribute) -> (r: syn::Meta)
    ensures
        meta_tree(r) == attribute_tree(*attr).meta,
{
    attr.meta.clone()
}

/// The tokens of a list attribute read as paths separated by commas.
///
/// Trusted: `syn::MetaList::parse_args_with` with
/// `Punctuated::<Path, Comma>::parse_terminated`; `None` for an attribute
/// that is no list and for tokens that do not read so.
#[verifier::external_body]
pub(crate) fn attribute_paths(attr: &syn::Attribute) -> (r: Option<Vec<syn::Path>>)
    ensures
        match r {
            Some(paths) => attribute_tree(*attr).paths == Some(path_trees(paths@)),
            None => attribute_tree(*attr).paths is None,
        },
{
    match &attr.meta {
        syn::Meta::List(list) => list.parse_args_with(
            syn::punctuated::Punctuated::<syn::Path, syn::token::Comma>::parse_terminated,
        ).ok().map(|paths| paths.into_iter().collect()),
        _ => None,
    }
}

/// The tokens of a list attribute read as attribute contents separated by
/// commas.
///
/// Trusted: `syn::MetaList::parse_args_with` with
/// `Punctuated::<Meta, Comma>::parse_terminated`; `None` for an attribute
/// that is no list and for tokens that do not read so.
#[verifier::external_body]
pub(crate) fn attribute_metas(attr: &syn::Attribute) -> (r: Option<Vec<syn::Meta>>)
    ensures
        match r {
            Some(metas) => attribute_tree(*attr).metas == Some(meta_trees(metas@)),
            None => attribute_tree(*attr).metas is None,
        },
{
    match &attr.meta {
        syn::Meta::List(list) => list.parse_args_with(
            syn::punctuated::Punctuated::<syn::Meta, syn::token::Comma>::parse_terminated,
        ).ok().map(|metas| metas.into_iter().collect()),
        _ => None,
    }
}

/// The parts of a `use` tree, by its kind.
///
/// Trusted: the variants of `syn::UseTree` and the fields of `syn::UsePath`,
/// `syn::UseName`, `syn::UseRename` and `syn::UseGroup`.
#[verifier::external_body]
pub(crate) fn open_use_tree(tree: &syn::UseTree) -> (r: UseShape)
    ensures
        use_shape_tree(r) == use_tree(*tree),
{
    match tree {
        syn::UseTree::Path(p) => UseShape::Path(p.ident.to_string(), (*p.tree).clone()),
        syn::UseTree::Name(n) => UseShape::Name(n.ident.to_string()),
        syn::UseTree::Rename(r) => UseShape::Rename(r.ident.to_string(), r.rename.to_string()),
        syn::UseTree::Glob(_) => UseShape::Glob,
        syn::UseTree::Group(g) => UseShape::Group(g.items.iter().cloned().collect()),
    }
}

} // verus!
