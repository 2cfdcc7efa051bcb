//! Splitting a text at a separating character or text.

use crate::text::{chars_match_at, first_index_of, lemma_first_index_is, occurs_at};
use vstd::prelude::*;

verus! {

/// The pieces of `s` between the first `limit - 1` occurrences of `sep`; the
/// last piece holds what is left, further separators included. With a limit
/// of 0 there are no pieces.
pub open spec fn pieces(s: Seq<char>, sep: char, limit: nat) -> Seq<Seq<char>>
    decreases limit,
{
    let i = first_index_of(s, sep);
    if limit == 0 {
        Seq::empty()
    } else if limit == 1 || i >= s.len() {
        seq![s]
    } else {
        seq![s.subrange(0, i)] + pieces(s.subrange(i + 1, s.len() as int), sep, (limit - 1) as nat)
    }
}

/// The characters of each piece.
pub open spec fn piece_views(v: Seq<Vec<char>>) -> Seq<Seq<char>> {
    v.map_values(|p: Vec<char>| p@)
}

fn copy_range(v: &Vec<char>, from: usize, to: usize) -> (r: Vec<char>)
    requires
        from <= to <= v@.len(),
    ensures
        r@ == v@.subrange(from as int, to as int),
{
    let mut r: Vec<char> = Vec::new();
    let mut i: usize = from;
    while i < to
        invariant
            from <= i <= to <= v@.len(),
            r@ == v@.subrange(from as int, i as int),
        decreases to - i,
    {
        r.push(v[i]);
        assert(v@.subrange(from as int, i + 1) == v@.subrange(from as int, i as int).push(
            v@[i as int],
        ));
        i += 1;
    }
    r
}

/// Splits `v` into at most `limit` pieces at the character `sep`.
pub fn split_n(v: &Vec<char>, sep: char, limit: usize) -> (r: Vec<Vec<char>>)
    ensures
        piece_views(r@) == pieces(v@, sep, limit as nat),
{
    let n = v.len();
    let mut out: Vec<Vec<char>> = Vec::new();
    if limit == 0 {
        assert(piece_views(out@) =~= Seq::<Seq<char>>::empty());
        return out;
    }
    let mut start: usize = 0;
    assert(v@.subrange(0, n as int) == v@);
    assert(piece_views(out@) =~= Seq::<Seq<char>>::empty());
    loop
        invariant
            start <= n,
            n == v@.len(),
            out@.len() < limit,
            pieces(v@, sep, limit as nat) == piece_views(out@) + pieces(
                v@.subrange(start as int, n as int),
                sep,
                (limit - out@.len()) as nat,
            ),
        decreases n - start,
    {
        let ghost rest = v@.subrange(start as int, n as int);
        let mut i: usize = start;
        while i < n && v[i] != sep
            invariant
                start <= i <= n,
                n == v@.len(),
                forall|k: int| start <= k < i ==> v@[k] != sep,
            decreases n - i,
        {
            i += 1;
        }
        proof {
            assert forall|k: int| 0 <= k < i - start implies rest[k] != sep by {
                assert(rest[k] == v@[k + start]);
            }
            if i < n {
                assert(rest[i - start] == v@[i as int]);
            }
            lemma_first_index_is(rest, sep, i - start);
        }
        if out.len() + 1 >= limit || i >= n {
            let ghost before = out@;
            let last = copy_range(v, start, n);
            out.push(last);
            proof {
                assert(pieces(rest, sep, (limit - before.len()) as nat) =~= seq![rest]);
                assert(piece_views(out@) =~= piece_views(before) + seq![rest]);
            }
            return out;
        }
        let ghost before = out@;
        let piece = copy_range(v, start, i);
        out.push(piece);
        proof {
            assert(rest.subrange(0, i - start) == v@.subrange(start as int, i as int));
            assert(rest.subrange(i - start + 1, rest.len() as int) == v@.subrange(
                i + 1,
                n as int,
            ));
            assert(piece_views(out@) =~= piece_views(before) + seq![piece@]);
            assert(piece_views(before) + (seq![piece@] + pieces(
                v@.subrange(i + 1, n as int),
                sep,
                (limit - before.len() - 1) as nat,
            )) =~= piece_views(out@) + pieces(
                v@.subrange(i + 1, n as int),
                sep,
                (limit - out@.len()) as nat,
            ));
        }
        start = i + 1;
    }
}

/// The position of the first occurrence of `p` in `s` at or behind `from`,
/// or the length of `s` where there is none.
pub open spec fn first_occurrence(s: Seq<char>, p: Seq<char>, from: int) -> int
    decreases s.len() - from,
{
    if from < 0 || from >= s.len() || from + p.len() > s.len() {
        s.len() as int
    } else if occurs_at(s, p, from) {
        from
    } else {
        first_occurrence(s, p, from + 1)
    }
}

/// The parts of `s` between the occurrences of the text `sep`, found from
/// the left and not overlapping. A text without an occurrence is one part;
/// so is every text where `sep` is empty.
pub open spec fn parts(s: Seq<char>, sep: Seq<char>) -> Seq<Seq<char>>
    decreases s.len(),
{
    let i = first_occurrence(s, sep, 0);
    if sep.len() == 0 || i < 0 || i + sep.len() > s.len() {
        seq![s]
    } else {
        seq![s.subrange(0, i)] + parts(s.subrange(i + sep.len(), s.len() as int), sep)
    }
}

/// A position at which `p` occurs, with no occurrence between `from` and
/// it, is the first occurrence; where `p` no longer fits behind the
/// positions without one, there is none.
pub proof fn lemma_first_occurrence(s: Seq<char>, p: Seq<char>, from: int, i: int)
    requires
        0 <= from <= i,
        forall|k: int| from <= k < i ==> !occurs_at(s, p, k),
        i + p.len() > s.len() || occurs_at(s, p, i),
    ensures
        first_occurrence(s, p, from) == if i + p.len() <= s.len() {
            i
        } else {
            s.len() as int
        },
    decreases i - from,
{
    if from >= s.len() || from + p.len() > s.len() {
    } else if from == i {
    } else {
        lemma_first_occurrence(s, p, from + 1, i);
    }
}

/// Splits `v` at every occurrence of the text `sep`.
pub fn split_at(v: &Vec<char>, sep: &Vec<char>) -> (r: Vec<Vec<char>>)
    ensures
        piece_views(r@) == parts(v@, sep@),
{
    let n = v.len();
    let mut out: Vec<Vec<char>> = Vec::new();
    assert(v@.subrange(0, n as int) == v@);
    if sep.len() == 0 {
        out.push(copy_range(v, 0, n));
        assert(piece_views(out@) =~= seq![v@]);
        return out;
    }
    let mut start: usize = 0;
    assert(piece_views(out@) + parts(v@, sep@) =~= parts(v@, sep@));
    loop
        invariant
            start <= n,
            n == v@.len(),
            sep@.len() > 0,
            parts(v@, sep@) == piece_views(out@) + parts(
                v@.subrange(start as int, n as int),
                sep@,
            ),
        decreases n - start,
    {
        let ghost rest = v@.subrange(start as int, n as int);
        let mut i: usize = start;
        while sep.len() <= n - i && !chars_match_at(v, sep, i)
            invariant
                start <= i <= n,
                n == v@.len(),
                sep@.len() > 0,
                forall|k: int| start <= k < i ==> !occurs_at(v@, sep@, k),
            decreases n - i,
        {
            i += 1;
        }
        proof {
            assert forall|k: int| 0 <= k < i - start implies !occurs_at(rest, sep@, k) by {
                assert(!occurs_at(v@, sep@, start + k));
                if k + sep@.len() <= rest.len() {
                    assert(rest.subrange(k, k + sep@.len()) =~= v@.subrange(
                        start + k,
                        start + k + sep@.len(),
                    ));
                }
            }
            if sep@.len() <= n - i {
                assert(rest.subrange(i - start, i - start + sep@.len()) =~= v@.subrange(
                    i as int,
                    i + sep@.len(),
                ));
            }
            lemma_first_occurrence(rest, sep@, 0, i - start);
        }
        let ghost before = out@;
        if sep.len() > n - i {
            out.push(copy_range(v, start, n));
            assert(piece_views(out@) =~= piece_views(before) + seq![rest]);
            return out;
        }
        let piece = copy_range(v, start, i);
        out.push(piece);
        proof {
            assert(rest.subrange(0, i - start) == v@.subrange(start as int, i as int));
            assert(rest.subrange(i - start + sep@.len(), rest.len() as int) == v@.subrange(
                i + sep@.len(),
                n as int,
            ));
            assert(piece_views(out@) =~= piece_views(before) + seq![piece@]);
            assert(piece_views(before) + (seq![piece@] + parts(
                v@.subrange(i + sep@.len(), n as int),
                sep@,
            )) =~= piece_views(out@) + parts(v@.subrange(i + sep@.len(), n as int), sep@));
        }
        start = i + sep.len();
    }
}

} // verus!
