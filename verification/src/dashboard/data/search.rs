//! Finding the first element of a sequence that has a given property.
use vstd::prelude::*;

verus! {

/// The place of the first element of `s` that satisfies `pred`, if there is one.
pub open spec fn first_index<T>(s: Seq<T>, pred: spec_fn(T) -> bool) -> Option<int>
    decreases s.len(),
{
    if s.len() == 0 {
        None
    } else if pred(s.first()) {
        Some(0)
    } else {
        match first_index(s.drop_first(), pred) {
            Some(i) => Some(i + 1),
            None => None,
        }
    }
}

/// An element that satisfies `pred`, and before which none does, is the first one.
pub proof fn lemma_first_index_found<T>(s: Seq<T>, pred: spec_fn(T) -> bool, i: int)
    requires
        0 <= i < s.len(),
        pred(s[i]),
        forall|j: int| 0 <= j < i ==> !pred(#[trigger] s[j]),
    ensures
        first_index(s, pred) == Some(i),
    decreases s.len(),
{
    if i > 0 {
        let rest = s.drop_first();
        assert forall|j: int| 0 <= j < i - 1 implies !pred(#[trigger] rest[j]) by {}
        lemma_first_index_found(rest, pred, i - 1);
    }
}

/// Where no element satisfies `pred`, there is no first one.
pub proof fn lemma_first_index_missing<T>(s: Seq<T>, pred: spec_fn(T) -> bool)
    requires
        forall|j: int| 0 <= j < s.len() ==> !pred(#[trigger] s[j]),
    ensures
        first_index(s, pred) == None::<int>,
    decreases s.len(),
{
    if s.len() > 0 {
        let rest = s.drop_first();
        assert forall|j: int| 0 <= j < rest.len() implies !pred(#[trigger] rest[j]) by {}
        lemma_first_index_missing(rest, pred);
    }
}

/// The first element that satisfies `pred` lies in the sequence and satisfies `pred`, and no
/// element before it does.
pub proof fn lemma_first_index_is_first<T>(s: Seq<T>, pred: spec_fn(T) -> bool)
    ensures
        match first_index(s, pred) {
            Some(i) => 0 <= i < s.len() && pred(s[i]) && forall|j: int|
                0 <= j < i ==> !pred(#[trigger] s[j]),
            None => forall|j: int| 0 <= j < s.len() ==> !pred(#[trigger] s[j]),
        },
    decreases s.len(),
{
    if s.len() > 0 && !pred(s.first()) {
        let rest = s.drop_first();
        lemma_first_index_is_first(rest, pred);
        match first_index(rest, pred) {
            Some(i) => {
                assert forall|j: int| 0 <= j < i + 1 implies !pred(#[trigger] s[j]) by {
                    if j > 0 {
                        assert(rest[j - 1] == s[j]);
                    }
                }
            },
            None => {
                assert forall|j: int| 0 <= j < s.len() implies !pred(#[trigger] s[j]) by {
                    if j > 0 {
                        assert(rest[j - 1] == s[j]);
                    }
                }
            },
        }
    }
}

} // verus!
