//! Facts about sequences that the list functions of this crate share.

use vstd::prelude::*;

verus! {

/// Filtering one element more either appends that element or changes nothing.
pub proof fn lemma_filter_step<A>(s: Seq<A>, pred: spec_fn(A) -> bool, i: int)
    requires
        0 <= i < s.len(),
    ensures
        s.take(i + 1).filter(pred) == if pred(s[i]) {
            s.take(i).filter(pred).push(s[i])
        } else {
            s.take(i).filter(pred)
        },
{
    reveal(Seq::filter);
    assert(s.take(i + 1).drop_last() == s.take(i));
    assert(s.take(i + 1).last() == s[i]);
}

/// Filtering nothing gives nothing.
pub proof fn lemma_filter_empty<A>(s: Seq<A>, pred: spec_fn(A) -> bool)
    requires
        s.len() == 0,
    ensures
        s.filter(pred) == Seq::<A>::empty(),
{
    reveal(Seq::filter);
    assert(s == Seq::<A>::empty());
}

/// True when `at` is the first place of `s` whose element meets `pred`.
pub open spec fn is_first_match<A>(s: Seq<A>, pred: spec_fn(A) -> bool, at: int) -> bool {
    &&& 0 <= at < s.len()
    &&& pred(s[at])
    &&& forall|earlier: int| 0 <= earlier < at ==> !pred(#[trigger] s[earlier])
}

/// The first place of `s` whose element meets `pred`, if there is one.
pub open spec fn first_match<A>(s: Seq<A>, pred: spec_fn(A) -> bool) -> Option<int> {
    if exists|at: int| is_first_match(s, pred, at) {
        Some(choose|at: int| is_first_match(s, pred, at))
    } else {
        None
    }
}

/// The first match is the place that `first_match` names.
pub proof fn lemma_first_match_found<A>(s: Seq<A>, pred: spec_fn(A) -> bool, at: int)
    requires
        is_first_match(s, pred, at),
    ensures
        first_match(s, pred) == Some(at),
{
    let chosen = choose|i: int| is_first_match(s, pred, i);
    if chosen < at {
        assert(!pred(s[chosen]));
    }
    if at < chosen {
        assert(!pred(s[at]));
    }
}

/// Where no element meets `pred`, `first_match` names no place.
pub proof fn lemma_first_match_none<A>(s: Seq<A>, pred: spec_fn(A) -> bool)
    requires
        forall|i: int| 0 <= i < s.len() ==> !pred(#[trigger] s[i]),
    ensures
        first_match(s, pred) is None,
{
}

/// What `first_match` names is a first match, and where it names nothing,
/// no element meets `pred`.
pub proof fn lemma_first_match_is_first<A>(s: Seq<A>, pred: spec_fn(A) -> bool)
    ensures
        first_match(s, pred) matches Some(at) ==> is_first_match(s, pred, at),
        first_match(s, pred) is None ==> forall|i: int|
            0 <= i < s.len() ==> !pred(#[trigger] s[i]),
{
    if first_match(s, pred) is None {
        assert forall|i: int| 0 <= i < s.len() implies !pred(#[trigger] s[i]) by {
            if pred(s[i]) {
                lemma_some_match_has_first(s, pred, i);
            }
        }
    }
}

/// Where some element meets `pred`, there is a first one.
pub proof fn lemma_some_match_has_first<A>(s: Seq<A>, pred: spec_fn(A) -> bool, at: int)
    requires
        0 <= at < s.len(),
        pred(s[at]),
    ensures
        exists|first: int| is_first_match(s, pred, first) && first <= at,
    decreases at,
{
    if exists|earlier: int| 0 <= earlier < at && pred(#[trigger] s[earlier]) {
        let earlier = choose|earlier: int| 0 <= earlier < at && pred(#[trigger] s[earlier]);
        lemma_some_match_has_first(s, pred, earlier);
    } else {
        assert(is_first_match(s, pred, at));
    }
}

} // verus!
