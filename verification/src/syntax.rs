//! The syntax tree that extraction reads: the declarations of one source
//! file, reduced to what the extraction rules look at.
//!
//! Each type comes in two forms: the executable one, and its mathematical
//! model (the `...Tree` types), which the contracts speak of.

use vstd::prelude::*;

verus! {

/// A type expression.
#[derive(Debug)]
pub enum TypeSyntax {
    /// A path such as `std::vec::Vec<T>`, by its last segment: the identifier
    /// and the arguments between angle brackets. An argument that is not a
    /// type (a lifetime, a constant) is `None`.
    Path { name: String, args: Vec<Option<TypeSyntax>> },
    /// A path without any segment.
    EmptyPath,
    /// A tuple type, by its members; `()` has none.
    Tuple(Vec<TypeSyntax>),
    /// A reference `&T` or `&mut T`, by what it points to.
    Reference(Box<TypeSyntax>),
    /// A slice `[T]`, by its element type.
    Slice(Box<TypeSyntax>),
    /// Any other type expression, by a description of it.
    Other(String),
}

/// The model of a type expression.
pub enum TypeTree {
    Path { name: Seq<char>, args: Seq<Option<TypeTree>> },
    EmptyPath,
    Tuple(Seq<TypeTree>),
    Reference(Box<TypeTree>),
    Slice(Box<TypeTree>),
    Other(Seq<char>),
}

/// A path in an attribute or in an impl header.
#[derive(Debug)]
pub struct PathSyntax {
    /// The identifiers of its segments, in order.
    pub segments: Vec<String>,
    /// The identifier, where the path is a single identifier without leading
    /// colons and without arguments.
    pub ident: Option<String>,
}

/// The model of a path.
pub struct PathTree {
    pub segments: Seq<Seq<char>>,
    pub ident: Option<Seq<char>>,
}

/// The content of an attribute, or one argument of a list attribute.
#[derive(Debug)]
pub enum MetaSyntax {
    /// A bare path, as in `#[test]`.
    Path(PathSyntax),
    /// A path followed by delimited tokens, as in `#[derive(Clone)]`.
    List(PathSyntax),
    /// A path, `=` and a value, as in `rename = "id"`. The value is kept where
    /// it is a string literal.
    NameValue { path: PathSyntax, value: Option<String> },
}

/// The model of an attribute's content.
pub enum MetaTree {
    Path(PathTree),
    List(PathTree),
    NameValue { path: PathTree, value: Option<Seq<char>> },
}

/// An attribute on a declaration, a field or a variant.
#[derive(Debug)]
pub struct AttributeSyntax {
    /// Its content.
    pub meta: MetaSyntax,
    /// For a list attribute whose tokens read as paths separated by commas:
    /// those paths.
    pub paths: Option<Vec<PathSyntax>>,
    /// For a list attribute whose tokens read as attribute contents separated
    /// by commas: those contents.
    pub metas: Option<Vec<MetaSyntax>>,
}

/// The model of an attribute.
pub struct AttributeTree {
    pub meta: MetaTree,
    pub paths: Option<Seq<PathTree>>,
    pub metas: Option<Seq<MetaTree>>,
}

/// A field of a struct or of a variant.
#[derive(Debug)]
pub struct FieldSyntax {
    /// Its name; a field of a tuple struct has none.
    pub name: Option<String>,
    pub attrs: Vec<AttributeSyntax>,
    pub ty: TypeSyntax,
}

/// The model of a field.
pub struct FieldTree {
    pub name: Option<Seq<char>>,
    pub attrs: Seq<AttributeTree>,
    pub ty: TypeTree,
}

/// The fields of a struct or of a variant.
#[derive(Debug)]
pub enum FieldsSyntax {
    /// `{ a: A, b: B }`.
    Named(Vec<FieldSyntax>),
    /// `(A, B)`.
    Unnamed(Vec<FieldSyntax>),
    /// No fields.
    Unit,
}

/// The model of a field list.
pub enum FieldsTree {
    Named(Seq<FieldTree>),
    Unnamed(Seq<FieldTree>),
    Unit,
}

/// A variant of an enum.
#[derive(Debug)]
pub struct VariantSyntax {
    pub name: String,
    pub attrs: Vec<AttributeSyntax>,
    pub fields: FieldsSyntax,
}

/// The model of a variant.
pub struct VariantTree {
    pub name: Seq<char>,
    pub attrs: Seq<AttributeTree>,
    pub fields: FieldsTree,
}

/// A struct declaration.
#[derive(Debug)]
pub struct StructSyntax {
    pub name: String,
    pub attrs: Vec<AttributeSyntax>,
    /// One entry for each generic parameter: the name of a type parameter,
    /// `None` for a lifetime or a constant.
    pub generics: Vec<Option<String>>,
    pub fields: FieldsSyntax,
}

/// The model of a struct declaration.
pub struct StructTree {
    pub name: Seq<char>,
    pub attrs: Seq<AttributeTree>,
    pub generics: Seq<Option<Seq<char>>>,
    pub fields: FieldsTree,
}

/// An enum declaration.
#[derive(Debug)]
pub struct EnumSyntax {
    pub name: String,
    pub attrs: Vec<AttributeSyntax>,
    /// One entry for each generic parameter, as for a struct.
    pub generics: Vec<Option<String>>,
    pub variants: Vec<VariantSyntax>,
}

/// The model of an enum declaration.
pub struct EnumTree {
    pub name: Seq<char>,
    pub attrs: Seq<AttributeTree>,
    pub generics: Seq<Option<Seq<char>>>,
    pub variants: Seq<VariantTree>,
}

/// A parameter of a function.
#[derive(Debug)]
pub enum FnArgSyntax {
    /// `self` in any form.
    Receiver,
    /// A pattern with a type. The name is kept where the pattern is a plain
    /// identifier.
    Typed { name: Option<String>, ty: TypeSyntax },
}

/// The model of a parameter.
pub enum FnArgTree {
    Receiver,
    Typed { name: Option<Seq<char>>, ty: TypeTree },
}

/// A function: a free function or a method in an impl block.
#[derive(Debug)]
pub struct FnSyntax {
    pub attrs: Vec<AttributeSyntax>,
    pub name: String,
    pub inputs: Vec<FnArgSyntax>,
    /// The declared return type; `None` where none is written.
    pub output: Option<TypeSyntax>,
}

/// The model of a function.
pub struct FnTree {
    pub attrs: Seq<AttributeTree>,
    pub name: Seq<char>,
    pub inputs: Seq<FnArgTree>,
    pub output: Option<TypeTree>,
}

/// An impl block.
#[derive(Debug)]
pub struct ImplSyntax {
    /// The path of the implemented trait, for a trait impl.
    pub trait_path: Option<PathSyntax>,
    /// The type the block is for.
    pub self_ty: TypeSyntax,
    /// One entry for each item of the block: the function, or `None` for
    /// anything else.
    pub items: Vec<Option<FnSyntax>>,
}

/// The model of an impl block.
pub struct ImplTree {
    pub trait_path: Option<PathTree>,
    pub self_ty: TypeTree,
    pub items: Seq<Option<FnTree>>,
}

/// The tree of a `use` declaration.
#[derive(Debug)]
pub enum UseTreeSyntax {
    /// `name::rest`.
    Path(String, Box<UseTreeSyntax>),
    /// `name`.
    Name(String),
    /// `name as alias`.
    Rename(String, String),
    /// `*`.
    Glob,
    /// `{a, b, c}`.
    Group(Vec<UseTreeSyntax>),
}

/// The model of a `use` tree.
pub enum ImportTree {
    Path(Seq<char>, Box<ImportTree>),
    Name(Seq<char>),
    Rename(Seq<char>, Seq<char>),
    Glob,
    Group(Seq<ImportTree>),
}

/// A declaration at the top of a file or inside a module.
#[derive(Debug)]
pub enum ItemSyntax {
    Fn(FnSyntax),
    Impl(ImplSyntax),
    /// A module, by the items of its body; one declared without a body has
    /// none.
    Mod(Vec<ItemSyntax>),
    Struct(StructSyntax),
    Enum(EnumSyntax),
    /// A constant, by the statements of its initializer where that is a
    /// block: for each statement the item it declares, or `None`.
    Const(Vec<Option<ItemSyntax>>),
    Use(UseTreeSyntax),
    /// Any other declaration.
    Other,
}

/// The model of a declaration.
pub enum ItemTree {
    Fn(FnTree),
    Impl(ImplTree),
    Mod(Seq<ItemTree>),
    Struct(StructTree),
    Enum(EnumTree),
    Const(Seq<Option<ItemTree>>),
    Use(ImportTree),
    Other,
}

/// A source file: its declarations, in order.
#[derive(Debug)]
pub struct FileSyntax {
    pub items: Vec<ItemSyntax>,
}

/// The model of a source file.
pub struct FileTree {
    pub items: Seq<ItemTree>,
}

impl TypeSyntax {
    /// The model of this type expression.
    pub open spec fn tree(self) -> TypeTree
        decreases self,
    {
        match self {
            TypeSyntax::Path { name, args } => TypeTree::Path {
                name: name@,
                args: Seq::new(
                    args@.len(),
                    |i: int|
                        if 0 <= i < args@.len() {
                            match args@[i] {
                                Some(t) => Some(t.tree()),
                                None => None,
                            }
                        } else {
                            None
                        },
                ),
            },
            TypeSyntax::EmptyPath => TypeTree::EmptyPath,
            TypeSyntax::Tuple(elems) => TypeTree::Tuple(
                Seq::new(
                    elems@.len(),
                    |i: int|
                        if 0 <= i < elems@.len() {
                            elems@[i].tree()
                        } else {
                            TypeTree::EmptyPath
                        },
                ),
            ),
            TypeSyntax::Reference(inner) => TypeTree::Reference(Box::new(inner.tree())),
            TypeSyntax::Slice(inner) => TypeTree::Slice(Box::new(inner.tree())),
            TypeSyntax::Other(description) => TypeTree::Other(description@),
        }
    }
}

impl View for TypeSyntax {
    type V = TypeTree;

    open spec fn view(&self) -> TypeTree {
        self.tree()
    }
}

impl DeepView for TypeSyntax {
    type V = TypeTree;

    open spec fn deep_view(&self) -> TypeTree {
        self@
    }
}

impl View for PathSyntax {
    type V = PathTree;

    open spec fn view(&self) -> PathTree {
        PathTree { segments: self.segments.deep_view(), ident: self.ident.deep_view() }
    }
}

impl DeepView for PathSyntax {
    type V = PathTree;

    open spec fn deep_view(&self) -> PathTree {
        self@
    }
}

impl View for MetaSyntax {
    type V = MetaTree;

    open spec fn view(&self) -> MetaTree {
        match self {
            MetaSyntax::Path(path) => MetaTree::Path(path@),
            MetaSyntax::List(path) => MetaTree::List(path@),
            MetaSyntax::NameValue { path, value } => MetaTree::NameValue {
                path: path@,
                value: value.deep_view(),
            },
        }
    }
}

impl DeepView for MetaSyntax {
    type V = MetaTree;

    open spec fn deep_view(&self) -> MetaTree {
        self@
    }
}

impl View for AttributeSyntax {
    type V = AttributeTree;

    open spec fn view(&self) -> AttributeTree {
        AttributeTree {
            meta: self.meta@,
            paths: self.paths.deep_view(),
            metas: self.metas.deep_view(),
        }
    }
}

impl DeepView for AttributeSyntax {
    type V = AttributeTree;

    open spec fn deep_view(&self) -> AttributeTree {
        self@
    }
}

impl View for FieldSyntax {
    type V = FieldTree;

    open spec fn view(&self) -> FieldTree {
        FieldTree { name: self.name.deep_view(), attrs: self.attrs.deep_view(), ty: self.ty@ }
    }
}

impl DeepView for FieldSyntax {
    type V = FieldTree;

    open spec fn deep_view(&self) -> FieldTree {
        self@
    }
}

impl View for FieldsSyntax {
    type V = FieldsTree;

    open spec fn view(&self) -> FieldsTree {
        match self {
            FieldsSyntax::Named(fields) => FieldsTree::Named(fields.deep_view()),
            FieldsSyntax::Unnamed(fields) => FieldsTree::Unnamed(fields.deep_view()),
            FieldsSyntax::Unit => FieldsTree::Unit,
        }
    }
}

impl View for VariantSyntax {
    type V = VariantTree;

    open spec fn view(&self) -> VariantTree {
        VariantTree { name: self.name@, attrs: self.attrs.deep_view(), fields: self.fields@ }
    }
}

impl DeepView for VariantSyntax {
    type V = VariantTree;

    open spec fn deep_view(&self) -> VariantTree {
        self@
    }
}

impl View for StructSyntax {
    type V = StructTree;

    open spec fn view(&self) -> StructTree {
        StructTree {
            name: self.name@,
            attrs: self.attrs.deep_view(),
            generics: self.generics.deep_view(),
            fields: self.fields@,
        }
    }
}

impl View for EnumSyntax {
    type V = EnumTree;

    open spec fn view(&self) -> EnumTree {
        EnumTree {
            name: self.name@,
            attrs: self.attrs.deep_view(),
            generics: self.generics.deep_view(),
            variants: self.variants.deep_view(),
        }
    }
}

impl View for FnArgSyntax {
    type V = FnArgTree;

    open spec fn view(&self) -> FnArgTree {
        match self {
            FnArgSyntax::Receiver => FnArgTree::Receiver,
            FnArgSyntax::Typed { name, ty } => FnArgTree::Typed { name: name.deep_view(), ty: ty@ },
        }
    }
}

impl DeepView for FnArgSyntax {
    type V = FnArgTree;

    open spec fn deep_view(&self) -> FnArgTree {
        self@
    }
}

impl View for FnSyntax {
    type V = FnTree;

    open spec fn view(&self) -> FnTree {
        FnTree {
            attrs: self.attrs.deep_view(),
            name: self.name@,
            inputs: self.inputs.deep_view(),
            output: self.output.deep_view(),
        }
    }
}

impl DeepView for FnSyntax {
    type V = FnTree;

    open spec fn deep_view(&self) -> FnTree {
        self@
    }
}

impl View for ImplSyntax {
    type V = ImplTree;

    open spec fn view(&self) -> ImplTree {
        ImplTree {
            trait_path: self.trait_path.deep_view(),
            self_ty: self.self_ty@,
            items: self.items.deep_view(),
        }
    }
}

impl UseTreeSyntax {
    /// The model of this `use` tree.
    pub open spec fn tree(self) -> ImportTree
        decreases self,
    {
        match self {
            UseTreeSyntax::Path(name, rest) => ImportTree::Path(name@, Box::new(rest.tree())),
            UseTreeSyntax::Name(name) => ImportTree::Name(name@),
            UseTreeSyntax::Rename(name, alias) => ImportTree::Rename(name@, alias@),
            UseTreeSyntax::Glob => ImportTree::Glob,
            UseTreeSyntax::Group(items) => ImportTree::Group(
                Seq::new(
                    items@.len(),
                    |i: int|
                        if 0 <= i < items@.len() {
                            items@[i].tree()
                        } else {
                            ImportTree::Glob
                        },
                ),
            ),
        }
    }
}

impl View for UseTreeSyntax {
    type V = ImportTree;

    open spec fn view(&self) -> ImportTree {
        self.tree()
    }
}

impl DeepView for UseTreeSyntax {
    type V = ImportTree;

    open spec fn deep_view(&self) -> ImportTree {
        self@
    }
}

impl ItemSyntax {
    /// The model of this declaration.
    pub open spec fn tree(self) -> ItemTree
        decreases self,
    {
        match self {
            ItemSyntax::Fn(f) => ItemTree::Fn(f@),
            ItemSyntax::Impl(i) => ItemTree::Impl(i@),
            ItemSyntax::Mod(items) => ItemTree::Mod(
                Seq::new(
                    items@.len(),
                    |i: int|
                        if 0 <= i < items@.len() {
                            items@[i].tree()
                        } else {
                            ItemTree::Other
                        },
                ),
            ),
            ItemSyntax::Struct(s) => ItemTree::Struct(s@),
            ItemSyntax::Enum(e) => ItemTree::Enum(e@),
            ItemSyntax::Const(stmts) => ItemTree::Const(
                Seq::new(
                    stmts@.len(),
                    |i: int|
                        if 0 <= i < stmts@.len() {
                            match stmts@[i] {
                                Some(item) => Some(item.tree()),
                                None => None,
                            }
                        } else {
                            None
                        },
                ),
            ),
            ItemSyntax::Use(tree) => ItemTree::Use(tree@),
            ItemSyntax::Other => ItemTree::Other,
        }
    }
}

impl View for ItemSyntax {
    type V = ItemTree;

    open spec fn view(&self) -> ItemTree {
        self.tree()
    }
}

impl DeepView for ItemSyntax {
    type V = ItemTree;

    open spec fn deep_view(&self) -> ItemTree {
        self@
    }
}

impl View for FileSyntax {
    type V = FileTree;

    open spec fn view(&self) -> FileTree {
        FileTree { items: self.items.deep_view() }
    }
}

/// The model of a path type's arguments is the sequence of their models.
pub proof fn lemma_path_view(name: String, args: Vec<Option<TypeSyntax>>)
    ensures
        (TypeSyntax::Path { name, args })@ == (TypeTree::Path {
            name: name@,
            args: args.deep_view(),
        }),
{
    assert((TypeSyntax::Path { name, args })@->Path_args =~= args.deep_view());
}

/// The model of a tuple type is the sequence of its members' models.
pub proof fn lemma_tuple_view(elems: Vec<TypeSyntax>)
    ensures
        TypeSyntax::Tuple(elems)@ == TypeTree::Tuple(elems.deep_view()),
{
    assert(TypeSyntax::Tuple(elems)@->Tuple_0 =~= elems.deep_view());
}

/// The model of a `use` group is the sequence of its members' models.
pub proof fn lemma_group_view(items: Vec<UseTreeSyntax>)
    ensures
        UseTreeSyntax::Group(items)@ == ImportTree::Group(items.deep_view()),
{
    assert(UseTreeSyntax::Group(items)@->Group_0 =~= items.deep_view());
}

/// The model of a module is the sequence of its items' models.
pub proof fn lemma_mod_view(items: Vec<ItemSyntax>)
    ensures
        ItemSyntax::Mod(items)@ == ItemTree::Mod(items.deep_view()),
{
    assert(ItemSyntax::Mod(items)@->Mod_0 =~= items.deep_view());
}

/// The model of a constant is the sequence of its statements' models.
pub proof fn lemma_const_view(stmts: Vec<Option<ItemSyntax>>)
    ensures
        ItemSyntax::Const(stmts)@ == ItemTree::Const(stmts.deep_view()),
{
    assert(ItemSyntax::Const(stmts)@->Const_0 =~= stmts.deep_view());
}

} // verus!
