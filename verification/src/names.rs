//! A set of names.

use vstd::prelude::*;
use crate::text::{str_eq};

verus! {

/// A finite set of names, such as the generic parameters of a declaration.
#[derive(Debug)]
pub struct NameSet {
    names: Vec<String>,
}

impl View for NameSet {
    type V = Set<Seq<char>>;

    closed spec fn view(&self) -> Set<Seq<char>> {
        self.names.deep_view().to_set()
    }
}

impl NameSet {
    /// The empty set.
    pub fn new() -> (r: Self)
        ensures
            r@ == Set::<Seq<char>>::empty(),
    {
        let r = NameSet { names: Vec::new() };
        r
    }

    /// Whether the name is in the set.
    pub fn contains(&self, name: &str) -> (r: bool)
        ensures
            r == self@.contains(name@),
    {
        let mut i: usize = 0;
        while i < self.names.len()
            invariant
                i <= self.names@.len(),
                forall|j: int| 0 <= j < i ==> self.names.deep_view()[j] != name@,
            decreases self.names@.len() - i,
        {
            if str_eq(self.names[i].as_str(), name) {
                assert(self.names.deep_view()[i as int] == name@);
                return true;
            }
            i += 1;
        }
        false
    }

    /// Adds the name to the set. Returns whether it was absent before.
    pub fn insert(&mut self, name: String) -> (r: bool)
        ensures
            final(self)@ == old(self)@.insert(name@),
            r == !old(self)@.contains(name@),
    {
        if self.contains(name.as_str()) {
            false
        } else {
            let ghost before = self.names.deep_view();
            self.names.push(name);
            proof {
                assert(self.names.deep_view() =~= before.push(name@));
                before.lemma_push_to_set_commute(name@);
            }
            true
        }
    }

    /// The set of the given names.
    pub fn from_names(names: &Vec<String>) -> (r: Self)
        ensures
            r@ == names.deep_view().to_set(),
    {
        let mut r = NameSet::new();
        let mut i: usize = 0;
        while i < names.len()
            invariant
                i <= names@.len(),
                r@ == names.deep_view().take(i as int).to_set(),
            decreases names@.len() - i,
        {
            let ghost before = names.deep_view().take(i as int);
            r.insert(names[i].clone());
            i += 1;
            proof {
                assert(names.deep_view().take(i as int) =~= before.push(names@[i - 1]@));
                before.lemma_push_to_set_commute(names@[i - 1]@);
            }
        }
        assert(names.deep_view().take(names@.len() as int) =~= names.deep_view());
        r
    }
}

} // verus!
