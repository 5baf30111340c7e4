//! Small facts about sequences that the extraction proofs share.

use vstd::prelude::*;

verus! {

/// The first entry that is `Some`, if any.
pub open spec fn first_some<T>(s: Seq<Option<T>>) -> Option<T>
    decreases s.len(),
{
    if s.len() == 0 {
        None
    } else if s[0] is Some {
        s[0]
    } else {
        first_some(s.drop_first())
    }
}

/// The last entry that is `Some`, if any.
pub open spec fn last_some<T>(s: Seq<Option<T>>) -> Option<T>
    decreases s.len(),
{
    if s.len() == 0 {
        None
    } else if s.last() is Some {
        s.last()
    } else {
        last_some(s.drop_last())
    }
}

/// Where every entry before `i` is `None`, the first `Some` is found from `i` on.
pub proof fn lemma_first_some_skip<T>(s: Seq<Option<T>>, i: int)
    requires
        0 <= i <= s.len(),
        forall|j: int| 0 <= j < i ==> s[j] is None,
    ensures
        first_some(s) == first_some(s.skip(i)),
    decreases i,
{
    if i == 0 {
        assert(s.skip(0) =~= s);
    } else {
        lemma_first_some_skip(s.drop_first(), i - 1);
        assert(s.drop_first().skip(i - 1) =~= s.skip(i));
    }
}

/// Where every entry before `i` is `None` and entry `i` is `Some`, it is the first.
pub proof fn lemma_first_some_at<T>(s: Seq<Option<T>>, i: int)
    requires
        0 <= i < s.len(),
        s[i] is Some,
        forall|j: int| 0 <= j < i ==> s[j] is None,
    ensures
        first_some(s) == s[i],
{
    lemma_first_some_skip(s, i);
}

/// The first `Some` is one of the entries.
pub proof fn lemma_first_some_is_an_entry<T>(s: Seq<Option<T>>)
    requires
        first_some(s) is Some,
    ensures
        exists|i: int| 0 <= i < s.len() && #[trigger] s[i] == first_some(s),
    decreases s.len(),
{
    if s.len() > 0 && !(s[0] is Some) {
        lemma_first_some_is_an_entry(s.drop_first());
        let i = choose|i: int|
            0 <= i < s.drop_first().len() && #[trigger] s.drop_first()[i] == first_some(
                s.drop_first(),
            );
        assert(s[i + 1] == first_some(s));
    }
}

/// Where every entry is `None`, there is no first `Some`.
pub proof fn lemma_first_some_none<T>(s: Seq<Option<T>>)
    requires
        forall|j: int| 0 <= j < s.len() ==> s[j] is None,
    ensures
        first_some(s) is None,
{
    lemma_first_some_skip(s, s.len() as int);
}

/// Appending an entry: a `Some` becomes the last one, a `None` changes nothing.
pub proof fn lemma_last_some_push<T>(s: Seq<Option<T>>, x: Option<T>)
    ensures
        last_some(s.push(x)) == if x is Some {
            x
        } else {
            last_some(s)
        },
{
    assert(s.push(x).drop_last() =~= s);
}

/// The models of a vector that grew by one element.
pub proof fn lemma_deep_view_push<T: DeepView>(before: Vec<T>, after: Vec<T>, x: T)
    requires
        after@ == before@.push(x),
    ensures
        after.deep_view() == before.deep_view().push(x.deep_view()),
{
}

/// The model of the empty vector.
pub proof fn lemma_deep_view_empty<T: DeepView>(v: Vec<T>)
    requires
        v@.len() == 0,
    ensures
        v.deep_view() == Seq::<T::V>::empty(),
{
}

} // verus!
