//! Stable sorting under a caller-chosen order.
//!
//! A [`Precedence`] says when one value has to stand before another; an
//! [`Order`] decides it for items whose views are such values. Sorting keeps
//! items that the order does not separate in the sequence they came in.

use vstd::prelude::*;

verus! {

/// A rule that says when one value has to stand before another.
pub trait Precedence<T> {
    /// `a` has to stand before `b`.
    spec fn before(a: T, b: T) -> bool;
}

/// A precedence on the views of `T` that can be decided on the items.
pub trait Order<T: View>: Precedence<T::V> {
    fn precedes(a: &T, b: &T) -> (r: bool)
        ensures
            r == Self::before(a@, b@),
    ;
}

/// The views of the items of `s`.
pub open spec fn views<T: View>(s: Seq<T>) -> Seq<T::V> {
    s.map_values(|x: T| x@)
}

/// `s` with `x` put behind the last item that does not have to follow it.
pub open spec fn insert_sorted<T, O: Precedence<T>>(s: Seq<T>, x: T) -> Seq<T>
    decreases s.len(),
{
    if s.len() == 0 || !O::before(x, s.last()) {
        s.push(x)
    } else {
        insert_sorted::<T, O>(s.drop_last(), x).push(s.last())
    }
}

/// The items of `s` in the order `O`; items that `O` does not separate keep
/// the order they have in `s`.
pub open spec fn stable_sort<T, O: Precedence<T>>(s: Seq<T>) -> Seq<T>
    decreases s.len(),
{
    if s.len() == 0 {
        s
    } else {
        insert_sorted::<T, O>(stable_sort::<T, O>(s.drop_last()), s.last())
    }
}

/// No item of `s` has to stand before an earlier one.
pub open spec fn is_ordered<T, O: Precedence<T>>(s: Seq<T>) -> bool {
    forall|i: int, j: int| 0 <= i < j < s.len() ==> !O::before(s[j], s[i])
}

/// `O` never asks for both orders of a pair, and "does not have to stand
/// before" carries over a middle item.
pub open spec fn is_consistent<T, O: Precedence<T>>() -> bool {
    &&& forall|a: T, b: T| #[trigger] O::before(a, b) ==> !O::before(b, a)
    &&& forall|a: T, b: T, c: T|
        !(#[trigger] O::before(a, b)) && !(#[trigger] O::before(b, c)) ==> !O::before(a, c)
}

/// Where `x` goes: behind position `k`, when everything from `k` on has to
/// follow `x` and the item just before `k` does not.
pub proof fn lemma_insert_position<T, O: Precedence<T>>(s: Seq<T>, x: T, k: int)
    requires
        0 <= k <= s.len(),
        forall|j: int| k <= j < s.len() ==> O::before(x, s[j]),
        k > 0 ==> !O::before(x, s[k - 1]),
    ensures
        insert_sorted::<T, O>(s, x) == s.insert(k, x),
    decreases s.len(),
{
    if k == s.len() {
        assert(s.insert(k, x) =~= s.push(x));
    } else {
        lemma_insert_position::<T, O>(s.drop_last(), x, k);
        assert(s.drop_last().insert(k, x).push(s.last()) =~= s.insert(k, x));
    }
}

/// Inserting an item adds it to the items that are there and removes none.
pub proof fn lemma_insert_sorted_multiset<T, O: Precedence<T>>(s: Seq<T>, x: T)
    ensures
        insert_sorted::<T, O>(s, x).to_multiset() == s.to_multiset().insert(x),
        insert_sorted::<T, O>(s, x).len() == s.len() + 1,
    decreases s.len(),
{
    broadcast use vstd::seq_lib::group_to_multiset_ensures;

    if s.len() == 0 || !O::before(x, s.last()) {
    } else {
        lemma_insert_sorted_multiset::<T, O>(s.drop_last(), x);
        assert(s.drop_last().push(s.last()) == s);
        assert(insert_sorted::<T, O>(s, x).to_multiset() =~= s.to_multiset().insert(x));
    }
}

/// Sorting keeps every item, as often as it occurs.
pub proof fn lemma_stable_sort_permutes<T, O: Precedence<T>>(s: Seq<T>)
    ensures
        stable_sort::<T, O>(s).to_multiset() == s.to_multiset(),
        stable_sort::<T, O>(s).len() == s.len(),
    decreases s.len(),
{
    broadcast use vstd::seq_lib::group_to_multiset_ensures;

    if s.len() > 0 {
        lemma_stable_sort_permutes::<T, O>(s.drop_last());
        lemma_insert_sorted_multiset::<T, O>(stable_sort::<T, O>(s.drop_last()), s.last());
        assert(s.drop_last().push(s.last()) == s);
    }
}

/// The position at which `insert_sorted` puts `x`.
pub open spec fn insert_point<T, O: Precedence<T>>(s: Seq<T>, x: T) -> int
    decreases s.len(),
{
    if s.len() == 0 || !O::before(x, s.last()) {
        s.len() as int
    } else {
        insert_point::<T, O>(s.drop_last(), x)
    }
}

/// `x` lands behind the last item that does not have to follow it.
pub proof fn lemma_insert_point<T, O: Precedence<T>>(s: Seq<T>, x: T)
    ensures
        0 <= insert_point::<T, O>(s, x) <= s.len(),
        forall|j: int| insert_point::<T, O>(s, x) <= j < s.len() ==> O::before(x, s[j]),
        insert_point::<T, O>(s, x) > 0 ==> !O::before(x, s[insert_point::<T, O>(s, x) - 1]),
        insert_sorted::<T, O>(s, x) == s.insert(insert_point::<T, O>(s, x), x),
    decreases s.len(),
{
    let k = insert_point::<T, O>(s, x);
    if s.len() == 0 || !O::before(x, s.last()) {
    } else {
        let head = s.drop_last();
        lemma_insert_point::<T, O>(head, x);
        assert forall|j: int| k <= j < s.len() implies O::before(x, s[j]) by {
            if j < head.len() {
                assert(head[j] == s[j]);
            }
        }
        if k > 0 {
            assert(head[k - 1] == s[k - 1]);
        }
    }
    lemma_insert_position::<T, O>(s, x, k);
}

/// Inserting into an ordered sequence leaves it ordered.
pub proof fn lemma_insert_sorted_ordered<T, O: Precedence<T>>(s: Seq<T>, x: T)
    requires
        is_consistent::<T, O>(),
        is_ordered::<T, O>(s),
    ensures
        is_ordered::<T, O>(insert_sorted::<T, O>(s, x)),
{
    let k = insert_point::<T, O>(s, x);
    let r = insert_sorted::<T, O>(s, x);
    lemma_insert_point::<T, O>(s, x);
    assert forall|i: int, j: int| 0 <= i < j < r.len() implies !O::before(r[j], r[i]) by {
        if j == k {
            // r[j] is x, r[i] an item before the insertion point
            assert(r[i] == s[i]);
            assert(!O::before(x, s[k - 1]));
            if i < k - 1 {
                assert(!O::before(s[k - 1], s[i]));
            }
        } else if i == k {
            // r[i] is x, r[j] an item that has to follow it
            assert(r[j] == s[j - 1]);
            assert(O::before(x, s[j - 1]));
        } else {
            let si = if i < k { i } else { i - 1 };
            let sj = if j < k { j } else { j - 1 };
            assert(r[i] == s[si] && r[j] == s[sj]);
        }
    }
}

/// Under a consistent order the sorted sequence is ordered.
pub proof fn lemma_stable_sort_ordered<T, O: Precedence<T>>(s: Seq<T>)
    requires
        is_consistent::<T, O>(),
    ensures
        is_ordered::<T, O>(stable_sort::<T, O>(s)),
    decreases s.len(),
{
    if s.len() > 0 {
        lemma_stable_sort_ordered::<T, O>(s.drop_last());
        lemma_insert_sorted_ordered::<T, O>(stable_sort::<T, O>(s.drop_last()), s.last());
    }
}

/// A sequence that is ordered already is its own sorted form.
pub proof fn lemma_stable_sort_of_ordered<T, O: Precedence<T>>(s: Seq<T>)
    requires
        is_ordered::<T, O>(s),
    ensures
        stable_sort::<T, O>(s) == s,
    decreases s.len(),
{
    if s.len() > 0 {
        let head = s.drop_last();
        assert(is_ordered::<T, O>(head)) by {
            assert forall|i: int, j: int| 0 <= i < j < head.len() implies !O::before(
                head[j],
                head[i],
            ) by {
                assert(head[j] == s[j] && head[i] == s[i]);
            }
        }
        lemma_stable_sort_of_ordered::<T, O>(head);
        if head.len() > 0 {
            assert(!O::before(s[s.len() - 1], s[s.len() - 2]));
            assert(head.last() == s[s.len() - 2]);
        }
        assert(head.push(s.last()) == s);
    }
}

/// Among items of which none has to stand before another, sorting changes
/// nothing: those of them that are in `s` come out in the order they have in
/// `s`. `same` picks the items.
pub proof fn lemma_stable_sort_keeps_order<T, O: Precedence<T>>(s: Seq<T>, same: spec_fn(T) -> bool)
    requires
        forall|a: T, b: T| same(a) && same(b) ==> !(#[trigger] O::before(a, b)),
    ensures
        stable_sort::<T, O>(s).filter(same) == s.filter(same),
    decreases s.len(),
{
    reveal(Seq::filter);
    if s.len() > 0 {
        let head = s.drop_last();
        let x = s.last();
        let sorted = stable_sort::<T, O>(head);
        lemma_stable_sort_keeps_order::<T, O>(head, same);
        lemma_insert_point::<T, O>(sorted, x);
        let k = insert_point::<T, O>(sorted, x);
        let front = sorted.take(k);
        let back = sorted.skip(k);
        assert(sorted == front + back);
        assert(sorted.insert(k, x) == front.push(x) + back);
        Seq::filter_distributes_over_add(front, back, same);
        Seq::filter_distributes_over_add(front.push(x), back, same);
        assert(front.push(x).drop_last() == front);
        if same(x) {
            assert forall|j: int| 0 <= j < back.len() implies !same(#[trigger] back[j]) by {
                assert(back[j] == sorted[k + j]);
                assert(O::before(x, sorted[k + j]));
            }
            lemma_filter_none(back, same);
            assert(front.filter(same).push(x) + Seq::<T>::empty() == front.filter(same).push(x));
            assert(front.filter(same) + Seq::<T>::empty() == front.filter(same));
        }
    }
}

/// Where no item meets the condition, none is left.
pub proof fn lemma_filter_none<T>(s: Seq<T>, pred: spec_fn(T) -> bool)
    requires
        forall|j: int| 0 <= j < s.len() ==> !pred(#[trigger] s[j]),
    ensures
        s.filter(pred) == Seq::<T>::empty(),
    decreases s.len(),
{
    reveal(Seq::filter);
    if s.len() > 0 {
        assert forall|j: int| 0 <= j < s.drop_last().len() implies !pred(
            #[trigger] s.drop_last()[j],
        ) by {
            assert(s.drop_last()[j] == s[j]);
        }
        lemma_filter_none(s.drop_last(), pred);
        assert(!pred(s[s.len() - 1]));
    }
}

/// Where one item alone meets the condition, it is what is left.
pub proof fn lemma_filter_one<T>(s: Seq<T>, pred: spec_fn(T) -> bool, i: int)
    requires
        0 <= i < s.len(),
        pred(s[i]),
        forall|k: int| 0 <= k < s.len() && k != i ==> !pred(#[trigger] s[k]),
    ensures
        s.filter(pred) == seq![s[i]],
    decreases s.len(),
{
    reveal(Seq::filter);
    let head = s.drop_last();
    assert forall|k: int| 0 <= k < head.len() && k != i implies !pred(#[trigger] head[k]) by {
        assert(head[k] == s[k]);
    }
    if i == s.len() - 1 {
        lemma_filter_none(head, pred);
        assert(s.filter(pred) =~= seq![s[i]]);
    } else {
        assert(head[i] == s[i]);
        lemma_filter_one(head, pred, i);
        assert(!pred(s[s.len() - 1]));
    }
}

/// Where two items alone meet the condition, they are what is left, in the
/// order in which they stand.
pub proof fn lemma_filter_pair<T>(s: Seq<T>, pred: spec_fn(T) -> bool, i: int, j: int)
    requires
        0 <= i < j < s.len(),
        pred(s[i]),
        pred(s[j]),
        forall|k: int| 0 <= k < s.len() && k != i && k != j ==> !pred(#[trigger] s[k]),
    ensures
        s.filter(pred) == seq![s[i], s[j]],
    decreases s.len(),
{
    reveal(Seq::filter);
    let head = s.drop_last();
    assert(head[i] == s[i]);
    if j == s.len() - 1 {
        assert forall|k: int| 0 <= k < head.len() && k != i implies !pred(#[trigger] head[k]) by {
            assert(head[k] == s[k]);
        }
        lemma_filter_one(head, pred, i);
        assert(s.filter(pred) =~= seq![s[i], s[j]]);
    } else {
        assert(head[j] == s[j]);
        assert forall|k: int| 0 <= k < head.len() && k != i && k != j implies !pred(
            #[trigger] head[k],
        ) by {
            assert(head[k] == s[k]);
        }
        lemma_filter_pair(head, pred, i, j);
        assert(!pred(s[s.len() - 1]));
    }
}

/// A single item is in order as it stands, and two items come out with the
/// one first that has to stand before the other, or else as they stood.
pub proof fn lemma_stable_sort_small<T, O: Precedence<T>>(x: T, y: T)
    ensures
        stable_sort::<T, O>(seq![x]) == seq![x],
        stable_sort::<T, O>(seq![x, y]) == if O::before(y, x) {
            seq![y, x]
        } else {
            seq![x, y]
        },
{
    let none = Seq::<T>::empty();
    assert(seq![x].drop_last() =~= none);
    assert(seq![x].last() == x);
    assert(stable_sort::<T, O>(none) == none);
    assert(insert_sorted::<T, O>(none, x) =~= seq![x]);
    assert(stable_sort::<T, O>(seq![x]) == seq![x]);
    assert(seq![x, y].drop_last() =~= seq![x]);
    assert(seq![x, y].last() == y);
    assert(insert_sorted::<T, O>(none, y) =~= seq![y]);
    if O::before(y, x) {
        assert(insert_sorted::<T, O>(seq![x], y) =~= seq![y, x]);
    } else {
        assert(insert_sorted::<T, O>(seq![x], y) =~= seq![x, y]);
    }
}

/// Putting an item into a sequence adds it to the items that are there.
pub proof fn lemma_insert_multiset<T>(s: Seq<T>, k: int, x: T)
    requires
        0 <= k <= s.len(),
    ensures
        s.insert(k, x).to_multiset() == s.to_multiset().insert(x),
{
    broadcast use vstd::seq_lib::group_to_multiset_ensures;

    let t = s.insert(k, x);
    assert(t.remove(k) =~= s);
    assert(t[k] == x);
    assert(t.contains(x));
    assert(t.remove(k).to_multiset() =~= t.to_multiset().remove(x));
    assert(t.to_multiset() =~= t.to_multiset().remove(x).insert(x));
}

/// Sorts `v` in place, stably, under the order `O`: the items are the same,
/// and their views stand in the sorted order.
pub fn sort_stable<T: View, O: Order<T>>(v: &mut Vec<T>)
    ensures
        views(final(v)@) == stable_sort::<T::V, O>(views(old(v)@)),
        final(v)@.to_multiset() == old(v)@.to_multiset(),
        final(v)@.len() == old(v)@.len(),
{
    broadcast use vstd::seq_lib::group_to_multiset_ensures;

    let ghost input = v@;
    assert(input.len() == v.len());
    let mut rest: Vec<T> = Vec::new();
    // Move the items out, last one first, so that popping yields them in order.
    while v.len() > 0
        invariant
            v@ == input.take(v@.len() as int),
            v@.len() <= input.len(),
            input.len() <= usize::MAX,
            rest@.len() == input.len() - v@.len(),
            forall|j: int| 0 <= j < rest@.len() ==> rest@[j] == input[input.len() - 1 - j],
        decreases v.len(),
    {
        let x = v.pop().unwrap();
        assert(v@ == input.take(v@.len() as int));
        rest.push(x);
    }
    let mut done: usize = 0;
    assert(input.take(0) =~= v@);
    assert(views(v@) =~= stable_sort::<T::V, O>(views(input.take(0))));
    while rest.len() > 0
        invariant
            done + rest@.len() == input.len(),
            input.len() <= usize::MAX,
            forall|j: int| 0 <= j < rest@.len() ==> rest@[j] == input[input.len() - 1 - j],
            views(v@) == stable_sort::<T::V, O>(views(input.take(done as int))),
            v@.to_multiset() == input.take(done as int).to_multiset(),
            v@.len() == done,
        decreases rest.len(),
    {
        let x = rest.pop().unwrap();
        assert(x == input[done as int]);
        let mut k: usize = v.len();
        while k > 0 && O::precedes(&x, &v[k - 1])
            invariant
                k <= v.len(),
                forall|j: int| k <= j < v@.len() ==> O::before(x@, #[trigger] views(v@)[j]),
            decreases k,
        {
            k -= 1;
        }
        proof {
            lemma_insert_position::<T::V, O>(views(v@), x@, k as int);
            assert(input.take(done + 1).drop_last() == input.take(done as int));
            assert(input.take(done + 1).last() == x);
            assert(views(input.take(done + 1)).drop_last() =~= views(input.take(done as int)));
            assert(views(input.take(done + 1)).last() == x@);
            assert(views(v@.insert(k as int, x)) =~= views(v@).insert(k as int, x@));
            assert(input.take(done + 1) == input.take(done as int).push(x));
            lemma_insert_multiset(v@, k as int, x);
            vstd::seq_lib::to_multiset_build(input.take(done as int), x);
        }
        v.insert(k, x);
        done += 1;
    }
    assert(input.take(done as int) == input);
}

} // verus!
