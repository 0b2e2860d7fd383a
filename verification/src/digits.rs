//! Decimal rendering of numbers and the fixed-width zero-pad helper.

use vstd::prelude::*;
use crate::text::{chars_rev_string, lemma_rev_push, rev_chars};

verus! {

/// The decimal digit character for a value below ten.
pub open spec fn dec_digit(d: nat) -> char {
    if d == 0 {
        '0'
    } else if d == 1 {
        '1'
    } else if d == 2 {
        '2'
    } else if d == 3 {
        '3'
    } else if d == 4 {
        '4'
    } else if d == 5 {
        '5'
    } else if d == 6 {
        '6'
    } else if d == 7 {
        '7'
    } else if d == 8 {
        '8'
    } else {
        '9'
    }
}

/// The usual decimal representation of a number: most significant digit
/// first, no leading zeros, a single '0' for zero.
pub open spec fn dec_rep(n: nat) -> Seq<char>
    decreases n,
{
    if n < 10 {
        seq![dec_digit(n)]
    } else {
        dec_rep(n / 10) + seq![dec_digit(n % 10)]
    }
}

/// The decimal representation zero-padded on the left to width three;
/// numbers of three or more digits are left as they are.
pub open spec fn pad3_of(n: nat) -> Seq<char> {
    if n < 10 {
        seq!['0', '0'] + dec_rep(n)
    } else if n < 100 {
        seq!['0'] + dec_rep(n)
    } else {
        dec_rep(n)
    }
}

fn dec_digit_char(d: u64) -> (c: char)
    requires
        d < 10,
    ensures
        c == dec_digit(d as nat),
{
    if d == 0 {
        '0'
    } else if d == 1 {
        '1'
    } else if d == 2 {
        '2'
    } else if d == 3 {
        '3'
    } else if d == 4 {
        '4'
    } else if d == 5 {
        '5'
    } else if d == 6 {
        '6'
    } else if d == 7 {
        '7'
    } else if d == 8 {
        '8'
    } else {
        '9'
    }
}

/// The decimal digits of `n`, least significant first.
fn dec_digits_low_first(n: u64) -> (v: Vec<char>)
    ensures
        rev_chars(v@) =~= dec_rep(n as nat),
        v@.len() >= 1,
{
    let mut v: Vec<char> = Vec::new();
    let mut m: u64 = n;
    while m >= 10
        invariant
            dec_rep(n as nat) =~= dec_rep(m as nat) + rev_chars(v@),
        decreases m,
    {
        let d = dec_digit_char(m % 10);
        proof {
            lemma_rev_push(v@, d);
            assert(dec_rep(m as nat) =~= dec_rep((m as nat) / 10) + seq![dec_digit((m as nat) % 10)]);
        }
        v.push(d);
        m = m / 10;
    }
    let d = dec_digit_char(m);
    proof {
        lemma_rev_push(v@, d);
        assert(dec_rep(m as nat) =~= seq![dec_digit(m as nat)]);
    }
    v.push(d);
    v
}

/// The decimal representation of `n` as a string.
pub fn dec_string(n: u64) -> (s: String)
    ensures
        s@ == dec_rep(n as nat),
{
    let v = dec_digits_low_first(n);
    let s = chars_rev_string(&v);
    s
}

/// The zero-pad template helper: `n` in decimal, left-padded with zeros
/// to at least three characters.
pub fn pad3(n: u64) -> (s: String)
    ensures
        s@ == pad3_of(n as nat),
{
    let mut v = dec_digits_low_first(n);
    if n < 10 {
        proof {
            lemma_rev_push(v@, '0');
        }
        v.push('0');
        proof {
            lemma_rev_push(v@, '0');
        }
        v.push('0');
        proof {
            assert(rev_chars(v@) =~= seq!['0', '0'] + dec_rep(n as nat));
        }
    } else if n < 100 {
        proof {
            lemma_rev_push(v@, '0');
        }
        v.push('0');
        proof {
            assert(rev_chars(v@) =~= seq!['0'] + dec_rep(n as nat));
        }
    }
    let s = chars_rev_string(&v);
    s
}

} // verus!
