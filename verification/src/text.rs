//! Character-sequence helpers that the contracts speak in: substring
//! containment, prefixes, and the decimal rendering of an integer.

use vstd::prelude::*;

verus! {

/// `sub` occurs contiguously somewhere inside `s`.
pub open spec fn has_substring(s: Seq<char>, sub: Seq<char>) -> bool {
    exists|i: int|
        0 <= i && i + sub.len() <= s.len() && #[trigger] s.subrange(i, i + sub.len() as int)
            == sub
}

/// `s` begins with `pre`.
pub open spec fn starts_with(s: Seq<char>, pre: Seq<char>) -> bool {
    pre.len() <= s.len() && s.subrange(0, pre.len() as int) == pre
}

/// A sequence assembled as `a + sub + b` contains `sub`.
pub proof fn lemma_concat_contains_middle(a: Seq<char>, sub: Seq<char>, b: Seq<char>)
    ensures
        has_substring(a + sub + b, sub),
{
    let s = a + sub + b;
    let i = a.len() as int;
    assert(s.subrange(i, i + sub.len() as int) =~= sub);
}

/// The decimal digit character for a value below ten.
pub open spec fn dec_digit(n: nat) -> char
    recommends
        n < 10,
{
    if n == 0 {
        '0'
    } else if n == 1 {
        '1'
    } else if n == 2 {
        '2'
    } else if n == 3 {
        '3'
    } else if n == 4 {
        '4'
    } else if n == 5 {
        '5'
    } else if n == 6 {
        '6'
    } else if n == 7 {
        '7'
    } else if n == 8 {
        '8'
    } else {
        '9'
    }
}

/// The usual decimal rendering of `n`: most significant digit first, no
/// leading zeroes, as integer formatting produces it.
pub open spec fn dec_str(n: nat) -> Seq<char>
    decreases n,
{
    if n < 10 {
        seq![dec_digit(n)]
    } else {
        dec_str(n / 10).push(dec_digit(n % 10))
    }
}

} // verus!
