//! Numbers as people read them.

use crate::decimal::{decimal, digit, digit_char, push_decimal};
use crate::text::from_chars;
use vstd::prelude::*;

verus! {

/// The three digits of a number below 1000, with leading zeros.
pub open spec fn three_digits(n: nat) -> Seq<char> {
    seq![digit_char((n / 100) as int), digit_char(((n / 10) % 10) as int), digit_char((n % 10) as int)]
}

/// `n` in decimal, with a comma before every group of three digits, counted
/// from the right.
pub open spec fn grouped(n: nat) -> Seq<char>
    decreases n,
{
    if n < 1000 {
        decimal(n)
    } else {
        grouped(n / 1000) + seq![','] + three_digits(n % 1000)
    }
}

fn push_grouped(out: &mut Vec<char>, n: u64)
    ensures
        final(out)@ == old(out)@ + grouped(n as nat),
    decreases n,
{
    if n < 1000 {
        push_decimal(out, n);
    } else {
        push_grouped(out, n / 1000);
        let rest = n % 1000;
        out.push(',');
        out.push(digit(rest / 100));
        out.push(digit((rest / 10) % 10));
        out.push(digit(rest % 10));
        assert(out@ =~= old(out)@ + grouped(n as nat));
    }
}

/// `n` with a comma before every group of three digits: 1234567 reads
/// `1,234,567`.
pub fn format_number(n: u64) -> (s: String)
    ensures
        s@ == grouped(n as nat),
{
    let mut out: Vec<char> = Vec::new();
    push_grouped(&mut out, n);
    assert(Seq::<char>::empty() + grouped(n as nat) =~= grouped(n as nat));
    from_chars(&out)
}

} // verus!
