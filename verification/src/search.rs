//! Finding the first item of a sequence that meets a condition.

use vstd::prelude::*;

verus! {

/// Position of the first item of `s` that meets `pred`, or the length of `s`
/// if none does.
pub open spec fn first_match<T>(s: Seq<T>, pred: spec_fn(T) -> bool) -> int
    decreases s.len(),
{
    if s.len() == 0 || pred(s[0]) {
        0
    } else {
        1 + first_match(s.drop_first(), pred)
    }
}

/// `first_match` is a position or the length; the item there meets the
/// condition, and none before it does.
pub proof fn lemma_first_match<T>(s: Seq<T>, pred: spec_fn(T) -> bool)
    ensures
        0 <= first_match(s, pred) <= s.len(),
        first_match(s, pred) < s.len() ==> pred(s[first_match(s, pred)]),
        forall|k: int| 0 <= k < first_match(s, pred) ==> !pred(#[trigger] s[k]),
    decreases s.len(),
{
    if s.len() == 0 || pred(s[0]) {
    } else {
        lemma_first_match(s.drop_first(), pred);
        assert forall|k: int| 0 <= k < first_match(s, pred) implies !pred(#[trigger] s[k]) by {
            if k > 0 {
                assert(s[k] == s.drop_first()[k - 1]);
            }
        }
    }
}

/// A position whose item meets the condition, with none before it that does,
/// is the first match; so is the length where no item meets it.
pub proof fn lemma_first_match_is<T>(s: Seq<T>, pred: spec_fn(T) -> bool, i: int)
    requires
        0 <= i <= s.len(),
        forall|k: int| 0 <= k < i ==> !pred(#[trigger] s[k]),
        i < s.len() ==> pred(s[i]),
    ensures
        first_match(s, pred) == i,
{
    lemma_first_match(s, pred);
    let f = first_match(s, pred);
    if f < i {
        assert(pred(s[f]));
    } else if i < f {
        assert(pred(s[i]));
    }
}

/// The values that `f` gives for the items of `s`, in order, where it gives
/// one.
pub open spec fn collect<A, B>(s: Seq<A>, f: spec_fn(A) -> Option<B>) -> Seq<B>
    decreases s.len(),
{
    if s.len() == 0 {
        Seq::empty()
    } else {
        match f(s.last()) {
            Some(b) => collect(s.drop_last(), f).push(b),
            None => collect(s.drop_last(), f),
        }
    }
}

} // verus!
