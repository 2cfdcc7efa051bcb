//! Cutting characters off both ends of a text.

use vstd::prelude::*;

verus! {

/// `c` is white space, as Unicode defines it.
pub open spec fn is_space(c: char) -> bool {
    let n = c as u32;
    (9 <= n <= 13) || n == 0x20 || n == 0x85 || n == 0xA0 || n == 0x1680 || (0x2000 <= n
        <= 0x200A) || n == 0x2028 || n == 0x2029 || n == 0x202F || n == 0x205F || n == 0x3000
}

/// What is cut off the ends of a text.
#[derive(Debug, Clone, Copy, PartialEq, Eq, Structural)]
pub enum Cut {
    /// White space.
    Space,
    /// Double quotes.
    Quote,
}

impl Cut {
    /// `c` is cut off.
    pub open spec fn cuts(self, c: char) -> bool {
        match self {
            Cut::Space => is_space(c),
            Cut::Quote => c == '"',
        }
    }

    /// Whether `c` is cut off.
    pub fn applies(self, c: char) -> (r: bool)
        ensures
            r == self.cuts(c),
    {
        match self {
            Cut::Space => {
                let n = c as u32;
                (9 <= n && n <= 13) || n == 0x20 || n == 0x85 || n == 0xA0 || n == 0x1680 || (
                0x2000 <= n && n <= 0x200A) || n == 0x2028 || n == 0x2029 || n == 0x202F || n
                    == 0x205F || n == 0x3000
            },
            Cut::Quote => c == '"',
        }
    }
}

/// `s` without the characters at its start that `cut` cuts.
pub open spec fn skip_cut(s: Seq<char>, cut: Cut) -> Seq<char>
    decreases s.len(),
{
    if s.len() > 0 && cut.cuts(s[0]) {
        skip_cut(s.drop_first(), cut)
    } else {
        s
    }
}

/// `s` without the characters at its end that `cut` cuts.
pub open spec fn drop_cut(s: Seq<char>, cut: Cut) -> Seq<char>
    decreases s.len(),
{
    if s.len() > 0 && cut.cuts(s.last()) {
        drop_cut(s.drop_last(), cut)
    } else {
        s
    }
}

/// `s` without the characters at both ends that `cut` cuts.
pub open spec fn stripped(s: Seq<char>, cut: Cut) -> Seq<char> {
    drop_cut(skip_cut(s, cut), cut)
}

/// `s` without white space at both ends.
pub open spec fn trimmed(s: Seq<char>) -> Seq<char> {
    stripped(s, Cut::Space)
}

/// What is left at the start is what follows the first character that is
/// not cut.
pub proof fn lemma_skip_cut(s: Seq<char>, cut: Cut, a: int)
    requires
        0 <= a <= s.len(),
        forall|k: int| 0 <= k < a ==> cut.cuts(s[k]),
        a < s.len() ==> !cut.cuts(s[a]),
    ensures
        skip_cut(s, cut) == s.subrange(a, s.len() as int),
    decreases a,
{
    if a == 0 {
        assert(s.subrange(0, s.len() as int) == s);
    } else {
        let tail = s.drop_first();
        assert(cut.cuts(s[0]));
        assert forall|k: int| 0 <= k < a - 1 implies cut.cuts(tail[k]) by {
            assert(tail[k] == s[k + 1]);
        }
        lemma_skip_cut(tail, cut, a - 1);
        assert(tail.subrange(a - 1, tail.len() as int) == s.subrange(a, s.len() as int));
    }
}

/// What is left at the end is what stands before the last character that
/// is not cut.
pub proof fn lemma_drop_cut(s: Seq<char>, cut: Cut, b: int)
    requires
        0 <= b <= s.len(),
        forall|k: int| b <= k < s.len() ==> cut.cuts(s[k]),
        b > 0 ==> !cut.cuts(s[b - 1]),
    ensures
        drop_cut(s, cut) == s.subrange(0, b),
    decreases s.len() - b,
{
    if b == s.len() {
        assert(s.subrange(0, s.len() as int) == s);
    } else {
        let head = s.drop_last();
        assert(cut.cuts(s[s.len() - 1]));
        assert forall|k: int| b <= k < head.len() implies cut.cuts(head[k]) by {
            assert(head[k] == s[k]);
        }
        lemma_drop_cut(head, cut, b);
        assert(head.subrange(0, b) == s.subrange(0, b));
    }
}

/// `v` without the characters at both ends that `cut` cuts.
pub fn strip(v: &Vec<char>, cut: Cut) -> (r: Vec<char>)
    ensures
        r@ == stripped(v@, cut),
{
    let n = v.len();
    let mut a: usize = 0;
    while a < n && cut.applies(v[a])
        invariant
            a <= n,
            n == v@.len(),
            forall|k: int| 0 <= k < a ==> cut.cuts(v@[k]),
        decreases n - a,
    {
        a += 1;
    }
    let mut b: usize = n;
    while b > a && cut.applies(v[b - 1])
        invariant
            a <= b <= n,
            n == v@.len(),
            forall|k: int| b <= k < n ==> cut.cuts(v@[k]),
        decreases b,
    {
        b -= 1;
    }
    let ghost rest = v@.subrange(a as int, n as int);
    proof {
        lemma_skip_cut(v@, cut, a as int);
        assert forall|k: int| b - a <= k < rest.len() implies cut.cuts(rest[k]) by {
            assert(rest[k] == v@[k + a]);
        }
        if b > a {
            assert(rest[b - a - 1] == v@[b - 1]);
        }
        lemma_drop_cut(rest, cut, b - a);
        assert(rest.subrange(0, b - a) == v@.subrange(a as int, b as int));
    }
    let mut r: Vec<char> = Vec::new();
    let mut i: usize = a;
    while i < b
        invariant
            a <= i <= b <= v@.len(),
            r@ == v@.subrange(a as int, i as int),
        decreases b - i,
    {
        r.push(v[i]);
        assert(v@.subrange(a as int, i + 1) == v@.subrange(a as int, i as int).push(v@[i as int]));
        i += 1;
    }
    r
}

} // verus!
