//! Finite maps keyed by a name or by a module path. A later entry for a key
//! replaces an earlier one.

use vstd::prelude::*;
use crate::text::{str_eq, texts_eq};

verus! {

/// A finite map from names to values.
#[derive(Debug)]
pub struct NameMap<V> {
    entries: Vec<(String, V)>,
}

/// The map that a list of entries stands for.
pub open spec fn name_map_of<V: DeepView>(entries: Seq<(String, V)>) -> Map<Seq<char>, V::V>
    decreases entries.len(),
{
    if entries.len() == 0 {
        Map::empty()
    } else {
        name_map_of(entries.drop_last()).insert(entries.last().0@, entries.last().1.deep_view())
    }
}

/// A key that no entry has is absent from the map.
pub proof fn lemma_name_absent<V: DeepView>(entries: Seq<(String, V)>, key: Seq<char>)
    requires
        forall|j: int| 0 <= j < entries.len() ==> (#[trigger] entries[j]).0@ != key,
    ensures
        !name_map_of(entries).contains_key(key),
    decreases entries.len(),
{
    if entries.len() > 0 {
        lemma_name_absent(entries.drop_last(), key);
    }
}

/// The map gives for a key the value of the last entry that has it.
pub proof fn lemma_name_present<V: DeepView>(entries: Seq<(String, V)>, key: Seq<char>, i: int)
    requires
        0 <= i < entries.len(),
        entries[i].0@ == key,
        forall|j: int| i < j < entries.len() ==> (#[trigger] entries[j]).0@ != key,
    ensures
        name_map_of(entries).contains_key(key),
        name_map_of(entries)[key] == entries[i].1.deep_view(),
    decreases entries.len(),
{
    if i < entries.len() - 1 {
        lemma_name_present(entries.drop_last(), key, i);
    }
}

impl<V: DeepView> View for NameMap<V> {
    type V = Map<Seq<char>, V::V>;

    closed spec fn view(&self) -> Map<Seq<char>, V::V> {
        name_map_of(self.entries@)
    }
}

impl<V: DeepView> DeepView for NameMap<V> {
    type V = Map<Seq<char>, V::V>;

    open spec fn deep_view(&self) -> Map<Seq<char>, V::V> {
        self@
    }
}

impl<V: DeepView> NameMap<V> {
    /// The empty map.
    pub fn new() -> (r: Self)
        ensures
            r@ == Map::<Seq<char>, V::V>::empty(),
    {
        NameMap { entries: Vec::new() }
    }

    /// Sets the value for a key.
    pub fn insert(&mut self, key: String, value: V)
        ensures
            final(self)@ == old(self)@.insert(key@, value.deep_view()),
    {
        self.entries.push((key, value));
        assert(self.entries@.drop_last() =~= old(self).entries@);
    }

    /// The value for a key, if the map has one.
    pub fn get(&self, key: &str) -> (r: Option<&V>)
        ensures
            match r {
                Some(value) => self@.contains_key(key@) && self@[key@] == value.deep_view(),
                None => !self@.contains_key(key@),
            },
    {
        let mut i: usize = self.entries.len();
        while i > 0
            invariant
                i <= self.entries@.len(),
                forall|j: int| i <= j < self.entries@.len() ==> (#[trigger] self.entries@[j]).0@ != key@,
            decreases i,
        {
            i -= 1;
            if str_eq(self.entries[i].0.as_str(), key) {
                proof {
                    lemma_name_present(self.entries@, key@, i as int);
                }
                return Some(&self.entries[i].1);
            }
        }
        proof {
            lemma_name_absent(self.entries@, key@);
        }
        None
    }

    /// Whether the map has a value for the key.
    pub fn contains_key(&self, key: &str) -> (r: bool)
        ensures
            r == self@.contains_key(key@),
    {
        self.get(key).is_some()
    }
}

/// A finite map from module paths to files.
#[derive(Debug)]
pub struct PathMap {
    entries: Vec<(Vec<String>, String)>,
}

/// The map that a list of entries stands for.
pub open spec fn path_map_of(entries: Seq<(Vec<String>, String)>) -> Map<Seq<Seq<char>>, Seq<char>>
    decreases entries.len(),
{
    if entries.len() == 0 {
        Map::empty()
    } else {
        path_map_of(entries.drop_last()).insert(
            entries.last().0.deep_view(),
            entries.last().1@,
        )
    }
}

/// A key that no entry has is absent from the map.
pub proof fn lemma_path_absent(entries: Seq<(Vec<String>, String)>, key: Seq<Seq<char>>)
    requires
        forall|j: int| 0 <= j < entries.len() ==> (#[trigger] entries[j]).0.deep_view() != key,
    ensures
        !path_map_of(entries).contains_key(key),
    decreases entries.len(),
{
    if entries.len() > 0 {
        lemma_path_absent(entries.drop_last(), key);
    }
}

/// The map gives for a key the value of the last entry that has it.
pub proof fn lemma_path_present(entries: Seq<(Vec<String>, String)>, key: Seq<Seq<char>>, i: int)
    requires
        0 <= i < entries.len(),
        entries[i].0.deep_view() == key,
        forall|j: int| i < j < entries.len() ==> (#[trigger] entries[j]).0.deep_view() != key,
    ensures
        path_map_of(entries).contains_key(key),
        path_map_of(entries)[key] == entries[i].1@,
    decreases entries.len(),
{
    if i < entries.len() - 1 {
        lemma_path_present(entries.drop_last(), key, i);
    }
}

impl View for PathMap {
    type V = Map<Seq<Seq<char>>, Seq<char>>;

    closed spec fn view(&self) -> Map<Seq<Seq<char>>, Seq<char>> {
        path_map_of(self.entries@)
    }
}

impl PathMap {
    /// The empty map.
    pub fn new() -> (r: Self)
        ensures
            r@ == Map::<Seq<Seq<char>>, Seq<char>>::empty(),
    {
        PathMap { entries: Vec::new() }
    }

    /// Sets the file for a module path.
    pub fn insert(&mut self, key: Vec<String>, value: String)
        ensures
            final(self)@ == old(self)@.insert(key.deep_view(), value@),
    {
        self.entries.push((key, value));
        assert(self.entries@.drop_last() =~= old(self).entries@);
    }

    /// The file for a module path, if the map has one.
    pub fn get(&self, key: &Vec<String>) -> (r: Option<&String>)
        ensures
            match r {
                Some(value) => self@.contains_key(key.deep_view()) && self@[key.deep_view()]
                    == value@,
                None => !self@.contains_key(key.deep_view()),
            },
    {
        let mut i: usize = self.entries.len();
        while i > 0
            invariant
                i <= self.entries@.len(),
                forall|j: int|
                    i <= j < self.entries@.len() ==> (#[trigger] self.entries@[j]).0.deep_view()
                        != key.deep_view(),
            decreases i,
        {
            i -= 1;
            if texts_eq(&self.entries[i].0, key) {
                proof {
                    lemma_path_present(self.entries@, key.deep_view(), i as int);
                }
                return Some(&self.entries[i].1);
            }
        }
        proof {
            lemma_path_absent(self.entries@, key.deep_view());
        }
        None
    }
}

} // verus!
