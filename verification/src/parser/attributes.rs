//! What the attributes of a declaration say: the command marker, the derived
//! serialization traits, and the `serde` arguments.

use vstd::prelude::*;
use crate::seqs::{
    first_some, last_some, lemma_deep_view_push, lemma_first_some_at,
    lemma_first_some_none, lemma_last_some_push,
};
use crate::syntax::{AttributeSyntax, AttributeTree, MetaSyntax, MetaTree, PathSyntax, PathTree};
use crate::text::str_eq;

verus! {

/// The path that an attribute's content starts with.
pub open spec fn meta_path(meta: MetaTree) -> PathTree {
    match meta {
        MetaTree::Path(path) => path,
        MetaTree::List(path) => path,
        MetaTree::NameValue { path, .. } => path,
    }
}

/// Whether the path is the single identifier `name`.
pub open spec fn is_ident(path: PathTree, name: Seq<char>) -> bool {
    path.ident == Some(name)
}

/// Whether the attribute marks a command: the bare path `tauri::command` or
/// `command`.
pub open spec fn is_command_marker(attr: AttributeTree) -> bool {
    attr.meta is Path && {
        let segments = attr.meta->Path_0.segments;
        (segments.len() == 2 && segments[0] == "tauri"@ && segments[1] == "command"@) || (
        segments.len() == 1 && segments[0] == "command"@)
    }
}

/// Whether one of the attributes marks a command.
pub open spec fn has_command_marker(attrs: Seq<AttributeTree>) -> bool {
    exists|i: int| 0 <= i < attrs.len() && is_command_marker(#[trigger] attrs[i])
}

/// The names of the serialization marker traits.
pub open spec fn is_serde_trait_name(name: Seq<char>) -> bool {
    name == "Serialize"@ || name == "Deserialize"@
}

/// Whether the path names a serialization trait, alone or as its last
/// segment.
pub open spec fn names_serde_trait(path: PathTree) -> bool {
    (path.ident is Some && is_serde_trait_name(path.ident->Some_0)) || (path.segments.len() > 0
        && is_serde_trait_name(path.segments.last()))
}

/// Whether the attribute is a `derive` that names a serialization trait.
pub open spec fn derives_serde(attr: AttributeTree) -> bool {
    &&& attr.meta is List
    &&& is_ident(attr.meta->List_0, "derive"@)
    &&& attr.paths is Some
    &&& exists|i: int|
        0 <= i < attr.paths->Some_0.len() && names_serde_trait(#[trigger] attr.paths->Some_0[i])
}

/// Whether one of the attributes derives a serialization trait.
pub open spec fn derives_serialization(attrs: Seq<AttributeTree>) -> bool {
    exists|i: int| 0 <= i < attrs.len() && derives_serde(#[trigger] attrs[i])
}

/// Whether the attribute's path is the identifier `serde`.
pub open spec fn is_serde_attr(attr: AttributeTree) -> bool {
    is_ident(meta_path(attr.meta), "serde"@)
}

/// Whether one of the attributes is a `serde` attribute.
pub open spec fn has_serde_attr(attrs: Seq<AttributeTree>) -> bool {
    exists|i: int| 0 <= i < attrs.len() && is_serde_attr(#[trigger] attrs[i])
}

/// The arguments of a `serde(...)` attribute whose tokens read as a list of
/// attribute contents; none for any other attribute.
pub open spec fn serde_args(attr: AttributeTree) -> Seq<MetaTree> {
    if attr.meta is List && is_ident(attr.meta->List_0, "serde"@) && attr.metas is Some {
        attr.metas->Some_0
    } else {
        Seq::empty()
    }
}

/// The `serde` arguments of all the attributes, in order.
pub open spec fn all_serde_args(attrs: Seq<AttributeTree>) -> Seq<MetaTree>
    decreases attrs.len(),
{
    if attrs.len() == 0 {
        Seq::empty()
    } else {
        all_serde_args(attrs.drop_last()) + serde_args(attrs.last())
    }
}

/// The string that the argument gives for `key`, where it has the form
/// `key = "string"`.
pub open spec fn string_value(arg: MetaTree, key: Seq<char>) -> Option<Seq<char>> {
    match arg {
        MetaTree::NameValue { path, value } => if is_ident(path, key) {
            value
        } else {
            None
        },
        _ => None,
    }
}

/// For each argument, the string it gives for `key`.
pub open spec fn string_values(args: Seq<MetaTree>, key: Seq<char>) -> Seq<Option<Seq<char>>> {
    Seq::new(args.len(), |i: int| string_value(args[i], key))
}

/// Whether the argument is the bare word `word`.
pub open spec fn is_flag(arg: MetaTree, word: Seq<char>) -> bool {
    arg is Path && is_ident(arg->Path_0, word)
}

/// The explicit rename among the attributes: the first `rename = "..."` of
/// their `serde` arguments.
pub open spec fn serde_rename(attrs: Seq<AttributeTree>) -> Option<Seq<char>> {
    first_some(string_values(all_serde_args(attrs), "rename"@))
}

/// The `serde` settings of a container that decide wire names and layout.
#[derive(Debug)]
pub struct SerdeContainerAttrs {
    /// The value of `rename_all`.
    pub rename_all: Option<String>,
    /// The value of `tag`.
    pub tag: Option<String>,
    /// The value of `content`.
    pub content: Option<String>,
    /// Whether `untagged` is set.
    pub untagged: bool,
}

/// The model of a container's `serde` settings.
pub struct ContainerSettings {
    pub rename_all: Option<Seq<char>>,
    pub tag: Option<Seq<char>>,
    pub content: Option<Seq<char>>,
    pub untagged: bool,
}

impl View for SerdeContainerAttrs {
    type V = ContainerSettings;

    open spec fn view(&self) -> ContainerSettings {
        ContainerSettings {
            rename_all: self.rename_all.deep_view(),
            tag: self.tag.deep_view(),
            content: self.content.deep_view(),
            untagged: self.untagged,
        }
    }
}

/// The settings that the attributes of a container give: for each key the
/// last string given for it, and whether the word `untagged` occurs.
pub open spec fn container_settings(attrs: Seq<AttributeTree>) -> ContainerSettings {
    let args = all_serde_args(attrs);
    ContainerSettings {
        rename_all: last_some(string_values(args, "rename_all"@)),
        tag: last_some(string_values(args, "tag"@)),
        content: last_some(string_values(args, "content"@)),
        untagged: exists|i: int| 0 <= i < args.len() && is_flag(#[trigger] args[i], "untagged"@),
    }
}

fn path_is_ident(path: &PathSyntax, name: &str) -> (r: bool)
    ensures
        r == is_ident(path@, name@),
{
    match &path.ident {
        Some(ident) => str_eq(ident.as_str(), name),
        None => false,
    }
}

fn path_of(meta: &MetaSyntax) -> (r: &PathSyntax)
    ensures
        r@ == meta_path(meta@),
{
    match meta {
        MetaSyntax::Path(path) => path,
        MetaSyntax::List(path) => path,
        MetaSyntax::NameValue { path, .. } => path,
    }
}

fn is_serde_trait(name: &str) -> (r: bool)
    ensures
        r == is_serde_trait_name(name@),
{
    str_eq(name, "Serialize") || str_eq(name, "Deserialize")
}

fn path_names_serde_trait(path: &PathSyntax) -> (r: bool)
    ensures
        r == names_serde_trait(path@),
{
    let by_ident = match &path.ident {
        Some(name) => is_serde_trait(name.as_str()),
        None => false,
    };
    if by_ident {
        return true;
    }
    let n = path.segments.len();
    if n > 0 {
        is_serde_trait(path.segments[n - 1].as_str())
    } else {
        false
    }
}

/// Whether the attribute is the command marker.
pub fn is_command_attribute(attr: &AttributeSyntax) -> (r: bool)
    ensures
        r == is_command_marker(attr@),
{
    match &attr.meta {
        MetaSyntax::Path(path) => {
            let n = path.segments.len();
            if n == 2 {
                str_eq(path.segments[0].as_str(), "tauri") && str_eq(
                    path.segments[1].as_str(),
                    "command",
                )
            } else if n == 1 {
                str_eq(path.segments[0].as_str(), "command")
            } else {
                false
            }
        },
        _ => false,
    }
}

/// Whether one of the attributes is the command marker.
pub fn has_command_attribute(attrs: &Vec<AttributeSyntax>) -> (r: bool)
    ensures
        r == has_command_marker(attrs.deep_view()),
{
    let mut i: usize = 0;
    while i < attrs.len()
        invariant
            i <= attrs@.len(),
            forall|j: int| 0 <= j < i ==> !is_command_marker(#[trigger] attrs.deep_view()[j]),
        decreases attrs@.len() - i,
    {
        if is_command_attribute(&attrs[i]) {
            assert(is_command_marker(attrs.deep_view()[i as int]));
            return true;
        }
        i += 1;
    }
    false
}

fn attribute_derives_serde(attr: &AttributeSyntax) -> (r: bool)
    ensures
        r == derives_serde(attr@),
{
    match &attr.meta {
        MetaSyntax::List(path) => {
            if !path_is_ident(path, "derive") {
                return false;
            }
            match &attr.paths {
                Some(derived) => {
                    let mut i: usize = 0;
                    while i < derived.len()
                        invariant
                            i <= derived@.len(),
                            attr@.meta is List,
                            is_ident(attr@.meta->List_0, "derive"@),
                            attr@.paths == Some(derived.deep_view()),
                            forall|j: int|
                                0 <= j < i ==> !names_serde_trait(#[trigger] derived.deep_view()[j]),
                        decreases derived@.len() - i,
                    {
                        if path_names_serde_trait(&derived[i]) {
                            assert(names_serde_trait(attr@.paths->Some_0[i as int]));
                            return true;
                        }
                        i += 1;
                    }
                    false
                },
                None => false,
            }
        },
        _ => false,
    }
}

/// Whether the attributes derive `Serialize` or `Deserialize`, by short name
/// or by a qualified path.
pub fn is_serializable(attrs: &Vec<AttributeSyntax>) -> (r: bool)
    ensures
        r == derives_serialization(attrs.deep_view()),
{
    let mut i: usize = 0;
    while i < attrs.len()
        invariant
            i <= attrs@.len(),
            forall|j: int| 0 <= j < i ==> !derives_serde(#[trigger] attrs.deep_view()[j]),
        decreases attrs@.len() - i,
    {
        if attribute_derives_serde(&attrs[i]) {
            assert(derives_serde(attrs.deep_view()[i as int]));
            return true;
        }
        i += 1;
    }
    false
}

/// Whether one of the attributes is a `serde` attribute.
pub fn has_serde_attribute(attrs: &Vec<AttributeSyntax>) -> (r: bool)
    ensures
        r == has_serde_attr(attrs.deep_view()),
{
    let mut i: usize = 0;
    while i < attrs.len()
        invariant
            i <= attrs@.len(),
            forall|j: int| 0 <= j < i ==> !is_serde_attr(#[trigger] attrs.deep_view()[j]),
        decreases attrs@.len() - i,
    {
        if path_is_ident(path_of(&attrs[i].meta), "serde") {
            assert(is_serde_attr(attrs.deep_view()[i as int]));
            return true;
        }
        i += 1;
    }
    false
}

/// The `serde` arguments of all the attributes, in order.
pub fn serde_arguments<'a>(attrs: &'a Vec<AttributeSyntax>) -> (r: Vec<&'a MetaSyntax>)
    ensures
        r.deep_view() == all_serde_args(attrs.deep_view()),
{
    let mut r: Vec<&'a MetaSyntax> = Vec::new();
    let mut i: usize = 0;
    while i < attrs.len()
        invariant
            i <= attrs@.len(),
            r.deep_view() == all_serde_args(attrs.deep_view().take(i as int)),
        decreases attrs@.len() - i,
    {
        let attr = &attrs[i];
        let ghost done = all_serde_args(attrs.deep_view().take(i as int));
        proof {
            let upto = attrs.deep_view().take(i + 1);
            assert(upto.drop_last() =~= attrs.deep_view().take(i as int));
        }
        let is_serde_list = match &attr.meta {
            MetaSyntax::List(path) => path_is_ident(path, "serde"),
            _ => false,
        };
        if is_serde_list {
            if let Some(metas) = &attr.metas {
                let mut j: usize = 0;
                while j < metas.len()
                    invariant
                        j <= metas@.len(),
                        r.deep_view() == done + metas.deep_view().take(j as int),
                    decreases metas@.len() - j,
                {
                    let ghost before = r;
                    r.push(&metas[j]);
                    proof {
                        lemma_deep_view_push(before, r, &metas@[j as int]);
                    }
                    j += 1;
                }
            }
        }
        i += 1;
    }
    assert(attrs.deep_view().take(attrs@.len() as int) =~= attrs.deep_view());
    r
}

fn string_value_of(arg: &MetaSyntax, key: &str) -> (r: Option<String>)
    ensures
        r.deep_view() == string_value(arg@, key@),
{
    match arg {
        MetaSyntax::NameValue { path, value } => {
            if path_is_ident(path, key) {
                match value {
                    Some(v) => Some(v.clone()),
                    None => None,
                }
            } else {
                None
            }
        },
        _ => None,
    }
}

/// The explicit rename among the attributes, if there is one.
pub fn get_serde_rename(attrs: &Vec<AttributeSyntax>) -> (r: Option<String>)
    ensures
        r.deep_view() == serde_rename(attrs.deep_view()),
{
    let args = serde_arguments(attrs);
    let ghost values = string_values(args.deep_view(), "rename"@);
    let mut i: usize = 0;
    while i < args.len()
        invariant
            i <= args@.len(),
            values == string_values(args.deep_view(), "rename"@),
            args.deep_view() == all_serde_args(attrs.deep_view()),
            forall|j: int| 0 <= j < i ==> values[j] is None,
        decreases args@.len() - i,
    {
        let found = string_value_of(args[i], "rename");
        if found.is_some() {
            proof {
                lemma_first_some_at(values, i as int);
            }
            return found;
        }
        i += 1;
    }
    proof {
        lemma_first_some_none(values);
    }
    None
}

/// Reads the container-level `serde` settings.
pub fn parse_serde_container_attrs(attrs: &Vec<AttributeSyntax>) -> (r: SerdeContainerAttrs)
    ensures
        r@ == container_settings(attrs.deep_view()),
{
    let args = serde_arguments(attrs);
    let mut result = SerdeContainerAttrs {
        rename_all: None,
        tag: None,
        content: None,
        untagged: false,
    };
    let ghost all = args.deep_view();
    let mut i: usize = 0;
    while i < args.len()
        invariant
            i <= args@.len(),
            all == args.deep_view(),
            result.rename_all.deep_view() == last_some(
                string_values(all.take(i as int), "rename_all"@),
            ),
            result.tag.deep_view() == last_some(string_values(all.take(i as int), "tag"@)),
            result.content.deep_view() == last_some(string_values(all.take(i as int), "content"@)),
            result.untagged == exists|j: int| 0 <= j < i && is_flag(#[trigger] all[j], "untagged"@),
        decreases args@.len() - i,
    {
        let arg = args[i];
        proof {
            let next = all.take(i + 1);
            let prev = all.take(i as int);
            assert(string_values(next, "rename_all"@) =~= string_values(prev, "rename_all"@).push(
                string_value(arg@, "rename_all"@),
            ));
            assert(string_values(next, "tag"@) =~= string_values(prev, "tag"@).push(
                string_value(arg@, "tag"@),
            ));
            assert(string_values(next, "content"@) =~= string_values(prev, "content"@).push(
                string_value(arg@, "content"@),
            ));
            lemma_last_some_push(
                string_values(prev, "rename_all"@),
                string_value(arg@, "rename_all"@),
            );
            lemma_last_some_push(string_values(prev, "tag"@), string_value(arg@, "tag"@));
            lemma_last_some_push(string_values(prev, "content"@), string_value(arg@, "content"@));
        }
        let rename_all = string_value_of(arg, "rename_all");
        if rename_all.is_some() {
            result.rename_all = rename_all;
        }
        let tag = string_value_of(arg, "tag");
        if tag.is_some() {
            result.tag = tag;
        }
        let content = string_value_of(arg, "content");
        if content.is_some() {
            result.content = content;
        }
        let is_untagged = match arg {
            MetaSyntax::Path(path) => path_is_ident(path, "untagged"),
            _ => false,
        };
        if is_untagged {
            result.untagged = true;
        }
        i += 1;
    }
    assert(all.take(args@.len() as int) =~= all);
    result
}

} // verus!
