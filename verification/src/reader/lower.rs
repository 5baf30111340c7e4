//! From the parser's nodes to the syntax tree.

use vstd::prelude::*;
use crate::reader::parsed::{
    attribute_meta, attribute_metas, attribute_paths, attribute_tree, attribute_trees,
    error_message, field_tree, field_trees, fields_tree, fn_arg_tree,
    fn_arg_trees, fn_tree_of, generic_argument_tree, generic_argument_trees,
    generic_argument_type, generic_param_name, generic_param_trees, impl_item_as_fn,
    impl_item_tree, impl_item_trees, item_as_const, item_as_enum, item_as_fn, item_as_impl,
    item_as_mod, item_as_struct, item_as_use, item_tree, item_trees, meta_tree,
    meta_trees, open_field, open_fields, open_fn_arg, open_meta, open_path, open_segment,
    open_signature, open_type, open_use_tree, open_variant, parse_items, parse_type_text,
    parsed_items, parsed_type, path_tree, path_trees, stmt_as_item,
    stmt_tree, stmt_trees, type_tree, type_trees, use_tree,
    use_trees, variant_tree, variant_trees, FieldsShape, MetaShape, TypeShape, UseShape,
};
use crate::syntax::{
    lemma_const_view, lemma_group_view, lemma_mod_view, lemma_path_view, lemma_tuple_view,
    AttributeSyntax, EnumSyntax, FieldSyntax, FieldsSyntax, FileSyntax, FnArgSyntax, FnSyntax,
    ImplSyntax, ImportTree, ItemSyntax, ItemTree, MetaSyntax, PathSyntax, StructSyntax,
    TypeSyntax, TypeTree, UseTreeSyntax, VariantSyntax,
};

verus! {

/// A source text that is not valid Rust.
#[derive(Debug)]
pub struct ParseError {
    /// What the parser reports.
    pub message: String,
}

fn lower_meta(meta: &syn::Meta) -> (r: MetaSyntax)
    ensures
        r@ == meta_tree(*meta),
{
    match open_meta(meta) {
        MetaShape::Path(path) => MetaSyntax::Path(open_path(&path)),
        MetaShape::List(path) => MetaSyntax::List(open_path(&path)),
        MetaShape::NameValue(path, value) => MetaSyntax::NameValue { path: open_path(&path), value },
    }
}

fn lower_attribute(attr: &syn::Attribute) -> (r: AttributeSyntax)
    ensures
        r@ == attribute_tree(*attr),
{
    let meta = lower_meta(&attribute_meta(attr));
    let paths = match attribute_paths(attr) {
        Some(list) => {
            let mut out: Vec<PathSyntax> = Vec::new();
            let mut i: usize = 0;
            while i < list.len()
                invariant
                    i <= list@.len(),
                    out@.len() == i,
                    forall|j: int| 0 <= j < i ==> (#[trigger] out@[j])@ == path_tree(list@[j]),
                decreases list@.len() - i,
            {
                out.push(open_path(&list[i]));
                i += 1;
            }
            assert(out.deep_view() =~= path_trees(list@));
            Some(out)
        },
        None => None,
    };
    let metas = match attribute_metas(attr) {
        Some(list) => {
            let mut out: Vec<MetaSyntax> = Vec::new();
            let mut i: usize = 0;
            while i < list.len()
                invariant
                    i <= list@.len(),
                    out@.len() == i,
                    forall|j: int| 0 <= j < i ==> (#[trigger] out@[j])@ == meta_tree(list@[j]),
                decreases list@.len() - i,
            {
                out.push(lower_meta(&list[i]));
                i += 1;
            }
            assert(out.deep_view() =~= meta_trees(list@));
            Some(out)
        },
        None => None,
    };
    AttributeSyntax { meta, paths, metas }
}

fn lower_attributes(attrs: &Vec<syn::Attribute>) -> (r: Vec<AttributeSyntax>)
    ensures
        r.deep_view() == attribute_trees(attrs@),
{
    let mut out: Vec<AttributeSyntax> = Vec::new();
    let mut i: usize = 0;
    while i < attrs.len()
        invariant
            i <= attrs@.len(),
            out@.len() == i,
            forall|j: int| 0 <= j < i ==> (#[trigger] out@[j])@ == attribute_tree(attrs@[j]),
        decreases attrs@.len() - i,
    {
        out.push(lower_attribute(&attrs[i]));
        i += 1;
    }
    out
}

fn lower_type(ty: &syn::Type) -> (r: TypeSyntax)
    ensures
        r@ == type_tree(*ty),
    decreases type_tree(*ty),
{
    let ghost tree = type_tree(*ty);
    match open_type(ty) {
        TypeShape::Path(Some(segment)) => {
            let (name, bracketed) = open_segment(&segment);
            let arguments = match bracketed {
                Some(arguments) => arguments,
                None => Vec::new(),
            };
            let mut args: Vec<Option<TypeSyntax>> = Vec::new();
            let mut i: usize = 0;
            while i < arguments.len()
                invariant
                    i <= arguments@.len(),
                    args@.len() == i,
                    tree == type_tree(*ty),
                    tree is Path,
                    tree->Path_args == generic_argument_trees(arguments@),
                    forall|j: int|
                        0 <= j < i ==> (#[trigger] args@[j]).deep_view() == generic_argument_tree(
                            arguments@[j],
                        ),
                decreases arguments@.len() - i,
            {
                let arg = match generic_argument_type(&arguments[i]) {
                    Some(inner) => {
                        proof {
                            let kids = tree->Path_args;
                            assert(decreases_to!(tree => kids[i as int]->Some_0));
                        }
                        Some(lower_type(&inner))
                    },
                    None => None,
                };
                args.push(arg);
                i += 1;
            }
            proof {
                lemma_path_view(name, args);
                assert(args.deep_view() =~= generic_argument_trees(arguments@));
            }
            TypeSyntax::Path { name, args }
        },
        TypeShape::Path(None) => TypeSyntax::EmptyPath,
        TypeShape::Tuple(elems) => {
            let mut out: Vec<TypeSyntax> = Vec::new();
            let mut i: usize = 0;
            while i < elems.len()
                invariant
                    i <= elems@.len(),
                    out@.len() == i,
                    tree == type_tree(*ty),
                    tree == TypeTree::Tuple(type_trees(elems@)),
                    forall|j: int| 0 <= j < i ==> (#[trigger] out@[j])@ == type_tree(elems@[j]),
                decreases elems@.len() - i,
            {
                proof {
                    let kids = tree->Tuple_0;
                    assert(kids[i as int] == type_tree(elems@[i as int]));
                }
                out.push(lower_type(&elems[i]));
                i += 1;
            }
            proof {
                lemma_tuple_view(out);
                assert(out.deep_view() =~= type_trees(elems@));
            }
            TypeSyntax::Tuple(out)
        },
        TypeShape::Reference(inner) => {
            proof {
                assert(decreases_to!(tree => *tree->Reference_0));
            }
            TypeSyntax::Reference(Box::new(lower_type(&inner)))
        },
        TypeShape::Slice(inner) => {
            proof {
                assert(decreases_to!(tree => *tree->Slice_0));
            }
            TypeSyntax::Slice(Box::new(lower_type(&inner)))
        },
        TypeShape::Other(description) => TypeSyntax::Other(description),
    }
}

fn lower_field(field: &syn::Field) -> (r: FieldSyntax)
    ensures
        r@ == field_tree(*field),
{
    let (name, attrs, ty) = open_field(field);
    FieldSyntax { name, attrs: lower_attributes(&attrs), ty: lower_type(&ty) }
}

fn lower_field_list(fields: &Vec<syn::Field>) -> (r: Vec<FieldSyntax>)
    ensures
        r.deep_view() == field_trees(fields@),
{
    let mut out: Vec<FieldSyntax> = Vec::new();
    let mut i: usize = 0;
    while i < fields.len()
        invariant
            i <= fields@.len(),
            out@.len() == i,
            forall|j: int| 0 <= j < i ==> (#[trigger] out@[j])@ == field_tree(fields@[j]),
        decreases fields@.len() - i,
    {
        out.push(lower_field(&fields[i]));
        i += 1;
    }
    out
}

fn lower_fields(fields: &syn::Fields) -> (r: FieldsSyntax)
    ensures
        r@ == fields_tree(*fields),
{
    match open_fields(fields) {
        FieldsShape::Named(named) => FieldsSyntax::Named(lower_field_list(&named)),
        FieldsShape::Unnamed(unnamed) => FieldsSyntax::Unnamed(lower_field_list(&unnamed)),
        FieldsShape::Unit => FieldsSyntax::Unit,
    }
}

fn lower_generics(params: &Vec<syn::GenericParam>) -> (r: Vec<Option<String>>)
    ensures
        r.deep_view() == generic_param_trees(params@),
{
    let mut out: Vec<Option<String>> = Vec::new();
    let mut i: usize = 0;
    while i < params.len()
        invariant
            i <= params@.len(),
            out@.len() == i,
            forall|j: int|
                0 <= j < i ==> (#[trigger] out@[j]).deep_view() == crate::reader::parsed::generic_param_tree(
                    params@[j],
                ),
        decreases params@.len() - i,
    {
        out.push(generic_param_name(&params[i]));
        i += 1;
    }
    out
}

fn lower_variant(variant: &syn::Variant) -> (r: VariantSyntax)
    ensures
        r@ == variant_tree(*variant),
{
    let (name, attrs, fields) = open_variant(variant);
    VariantSyntax { name, attrs: lower_attributes(&attrs), fields: lower_fields(&fields) }
}

fn lower_fn_arg(arg: &syn::FnArg) -> (r: FnArgSyntax)
    ensures
        r@ == fn_arg_tree(*arg),
{
    match open_fn_arg(arg) {
        Some((name, ty)) => FnArgSyntax::Typed { name, ty: lower_type(&ty) },
        None => FnArgSyntax::Receiver,
    }
}

fn lower_fn(attrs: &Vec<syn::Attribute>, sig: &syn::Signature) -> (r: FnSyntax)
    ensures
        r@ == fn_tree_of(attrs@, *sig),
{
    let (name, inputs, output) = open_signature(sig);
    let mut args: Vec<FnArgSyntax> = Vec::new();
    let mut i: usize = 0;
    while i < inputs.len()
        invariant
            i <= inputs@.len(),
            args@.len() == i,
            forall|j: int| 0 <= j < i ==> (#[trigger] args@[j])@ == fn_arg_tree(inputs@[j]),
        decreases inputs@.len() - i,
    {
        args.push(lower_fn_arg(&inputs[i]));
        i += 1;
    }
    assert(args.deep_view() =~= fn_arg_trees(inputs@));
    let output = match output {
        Some(ty) => Some(lower_type(&ty)),
        None => None,
    };
    FnSyntax { attrs: lower_attributes(attrs), name, inputs: args, output }
}

fn lower_use_tree(tree: &syn::UseTree) -> (r: UseTreeSyntax)
    ensures
        r@ == use_tree(*tree),
    decreases use_tree(*tree),
{
    let ghost model = use_tree(*tree);
    match open_use_tree(tree) {
        UseShape::Path(name, rest) => {
            proof {
                assert(decreases_to!(model => *model->Path_1));
            }
            UseTreeSyntax::Path(name, Box::new(lower_use_tree(&rest)))
        },
        UseShape::Name(name) => UseTreeSyntax::Name(name),
        UseShape::Rename(name, alias) => UseTreeSyntax::Rename(name, alias),
        UseShape::Glob => UseTreeSyntax::Glob,
        UseShape::Group(items) => {
            let mut out: Vec<UseTreeSyntax> = Vec::new();
            let mut i: usize = 0;
            while i < items.len()
                invariant
                    i <= items@.len(),
                    out@.len() == i,
                    model == use_tree(*tree),
                    model == ImportTree::Group(use_trees(items@)),
                    forall|j: int| 0 <= j < i ==> (#[trigger] out@[j])@ == use_tree(items@[j]),
                decreases items@.len() - i,
            {
                proof {
                    let kids = model->Group_0;
                    assert(kids[i as int] == use_tree(items@[i as int]));
                }
                out.push(lower_use_tree(&items[i]));
                i += 1;
            }
            proof {
                lemma_group_view(out);
                assert(out.deep_view() =~= use_trees(items@));
            }
            UseTreeSyntax::Group(out)
        },
    }
}

fn lower_item(item: &syn::Item) -> (r: ItemSyntax)
    ensures
        r@ == item_tree(*item),
    decreases item_tree(*item), 0nat,
{
    let ghost tree = item_tree(*item);
    if let Some((attrs, sig)) = item_as_fn(item) {
        return ItemSyntax::Fn(lower_fn(&attrs, &sig));
    }
    if let Some((trait_path, self_ty, items)) = item_as_impl(item) {
        let mut methods: Vec<Option<FnSyntax>> = Vec::new();
        let mut i: usize = 0;
        while i < items.len()
            invariant
                i <= items@.len(),
                methods@.len() == i,
                forall|j: int|
                    0 <= j < i ==> (#[trigger] methods@[j]).deep_view() == impl_item_tree(
                        items@[j],
                    ),
            decreases items@.len() - i,
        {
            let method = match impl_item_as_fn(&items[i]) {
                Some((attrs, sig)) => Some(lower_fn(&attrs, &sig)),
                None => None,
            };
            methods.push(method);
            i += 1;
        }
        assert(methods.deep_view() =~= impl_item_trees(items@));
        let trait_path = match trait_path {
            Some(path) => Some(open_path(&path)),
            None => None,
        };
        return ItemSyntax::Impl(
            ImplSyntax { trait_path, self_ty: lower_type(&self_ty), items: methods },
        );
    }
    if let Some(body) = item_as_mod(item) {
        let items = match body {
            Some(items) => items,
            None => Vec::new(),
        };
        assert(tree == ItemTree::Mod(item_trees(items@))) by {
            if body is None {
                assert(item_trees(items@) =~= Seq::<ItemTree>::empty());
            }
        }
        proof {
            assert(decreases_to!(tree => tree->Mod_0));
        }
        let inner = lower_items(&items);
        proof {
            lemma_mod_view(inner);
        }
        return ItemSyntax::Mod(inner);
    }
    if let Some((name, attrs, generics, fields)) = item_as_struct(item) {
        return ItemSyntax::Struct(
            StructSyntax {
                name,
                attrs: lower_attributes(&attrs),
                generics: lower_generics(&generics),
                fields: lower_fields(&fields),
            },
        );
    }
    if let Some((name, attrs, generics, variants)) = item_as_enum(item) {
        let mut out: Vec<VariantSyntax> = Vec::new();
        let mut i: usize = 0;
        while i < variants.len()
            invariant
                i <= variants@.len(),
                out@.len() == i,
                forall|j: int| 0 <= j < i ==> (#[trigger] out@[j])@ == variant_tree(variants@[j]),
            decreases variants@.len() - i,
        {
            out.push(lower_variant(&variants[i]));
            i += 1;
        }
        assert(out.deep_view() =~= variant_trees(variants@));
        return ItemSyntax::Enum(
            EnumSyntax {
                name,
                attrs: lower_attributes(&attrs),
                generics: lower_generics(&generics),
                variants: out,
            },
        );
    }
    if let Some(block) = item_as_const(item) {
        let stmts = match block {
            Some(stmts) => stmts,
            None => Vec::new(),
        };
        assert(tree == ItemTree::Const(stmt_trees(stmts@))) by {
            if block is None {
                assert(stmt_trees(stmts@) =~= Seq::<Option<ItemTree>>::empty());
            }
        }
        let mut out: Vec<Option<ItemSyntax>> = Vec::new();
        let mut i: usize = 0;
        while i < stmts.len()
            invariant
                i <= stmts@.len(),
                out@.len() == i,
                tree == item_tree(*item),
                tree == ItemTree::Const(stmt_trees(stmts@)),
                forall|j: int|
                    0 <= j < i ==> (#[trigger] out@[j]).deep_view() == stmt_tree(stmts@[j]),
            decreases stmts@.len() - i,
        {
            let declared = match stmt_as_item(&stmts[i]) {
                Some(inner) => {
                    proof {
                        let kids = tree->Const_0;
                        assert(decreases_to!(tree => kids[i as int]->Some_0));
                    }
                    Some(lower_item(&inner))
                },
                None => None,
            };
            out.push(declared);
            i += 1;
        }
        proof {
            lemma_const_view(out);
            assert(out.deep_view() =~= stmt_trees(stmts@));
        }
        return ItemSyntax::Const(out);
    }
    if let Some(tree) = item_as_use(item) {
        return ItemSyntax::Use(lower_use_tree(&tree));
    }
    ItemSyntax::Other
}

fn lower_items(items: &Vec<syn::Item>) -> (r: Vec<ItemSyntax>)
    ensures
        r.deep_view() == item_trees(items@),
    decreases item_trees(items@), 1nat,
{
    let mut out: Vec<ItemSyntax> = Vec::new();
    let mut i: usize = 0;
    while i < items.len()
        invariant
            i <= items@.len(),
            out@.len() == i,
            forall|j: int| 0 <= j < i ==> (#[trigger] out@[j])@ == item_tree(items@[j]),
        decreases items@.len() - i,
    {
        proof {
            let trees = item_trees(items@);
            assert(trees[i as int] == item_tree(items@[i as int]));
        }
        out.push(lower_item(&items[i]));
        i += 1;
    }
    out
}

/// Reads a source file into its syntax tree.
///
/// The tree is the one that the parser yields for the text; a text that is
/// not valid Rust gives an error.
pub fn read_file(content: &str) -> (r: Result<FileSyntax, ParseError>)
    ensures
        match r {
            Ok(file) => parsed_items(content@) == Some(file@.items),
            Err(_) => parsed_items(content@) is None,
        },
{
    match parse_items(content) {
        Ok(items) => Ok(FileSyntax { items: lower_items(&items) }),
        Err(error) => Err(ParseError { message: error_message(&error) }),
    }
}

/// Reads the text of a type into its syntax tree.
pub fn read_type(text: &str) -> (r: Result<TypeSyntax, ParseError>)
    ensures
        match r {
            Ok(ty) => parsed_type(text@) == Some(ty@),
            Err(_) => parsed_type(text@) is None,
        },
{
    match parse_type_text(text) {
        Ok(ty) => Ok(lower_type(&ty)),
        Err(error) => Err(ParseError { message: error_message(&error) }),
    }
}

} // verus!
