//! Building strings character by character.

use vstd::prelude::*;

verus! {

/// Relies on `String::push`: appends the given character to the end of
/// the string.
#[verifier::external_body]
pub(crate) fn push_char(s: &mut String, c: char)
    ensures
        final(s)@ == old(s)@.push(c),
{
    s.push(c)
}

/// Relies on `str::chars`: yields the characters of the string in order.
#[verifier::external_body]
pub(crate) fn str_chars_vec(s: &str) -> (v: Vec<char>)
    ensures
        v@ == s@,
{
    s.chars().collect()
}

/// The characters of `s` in reverse order.
pub open spec fn rev_chars(s: Seq<char>) -> Seq<char>
    decreases s.len(),
{
    if s.len() == 0 {
        Seq::empty()
    } else {
        rev_chars(s.drop_first()) + seq![s.first()]
    }
}

pub proof fn lemma_rev_push(s: Seq<char>, c: char)
    ensures
        rev_chars(s.push(c)) =~= seq![c] + rev_chars(s),
    decreases s.len(),
{
    if s.len() == 0 {
        assert(s.push(c).drop_first() =~= Seq::<char>::empty());
        assert(rev_chars(Seq::<char>::empty()) =~= Seq::<char>::empty());
        assert(s.push(c).first() == c);
        assert(rev_chars(s.push(c)) =~= seq![c]);
        assert(seq![c] + rev_chars(s) =~= seq![c]);
    } else {
        assert(s.push(c).drop_first() =~= s.drop_first().push(c));
        lemma_rev_push(s.drop_first(), c);
        assert(rev_chars(s.push(c)) =~= rev_chars(s.drop_first().push(c)) + seq![s.first()]);
        assert(rev_chars(s.push(c)) =~= seq![c] + rev_chars(s));
    }
}

/// Builds the string whose characters are those of `v` in reverse order.
pub(crate) fn chars_rev_string(v: &Vec<char>) -> (s: String)
    ensures
        s@ =~= rev_chars(v@),
{
    let mut s = String::new();
    let mut i: usize = v.len();
    while i > 0
        invariant
            i <= v@.len(),
            s@ =~= rev_chars(v@.skip(i as int)),
        decreases i,
    {
        i = i - 1;
        push_char(&mut s, v[i]);
        proof {
            assert(v@.skip(i as int).drop_first() =~= v@.skip(i + 1));
            assert(v@.skip(i as int).first() == v@[i as int]);
        }
    }
    proof {
        assert(v@.skip(0) =~= v@);
    }
    s
}

} // verus!
