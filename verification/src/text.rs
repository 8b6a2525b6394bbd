//! Text helpers over `String`, with contracts stated on the character view.

use vstd::prelude::*;

verus! {

/// Appends one character; wraps `String::push`.
#[verifier::external_body]
pub(crate) fn push_char_to(s: &mut String, c: char)
    ensures
        final(s)@ == old(s)@.push(c),
{
    s.push(c);
}

/// Removes and returns the last character, if any; wraps `String::pop`.
#[verifier::external_body]
pub(crate) fn pop_char_from(s: &mut String) -> (res: Option<char>)
    ensures
        old(s)@.len() == 0 ==> res is None && final(s)@ == old(s)@,
        old(s)@.len() > 0 ==> res == Some(old(s)@.last()) && final(s)@ == old(s)@.drop_last(),
{
    s.pop()
}

/// Compares two string slices; wraps `<str as PartialEq>::eq`.
#[verifier::external_body]
pub(crate) fn str_equal(a: &str, b: &str) -> (res: bool)
    ensures
        res == (a@ == b@),
{
    a == b
}

/// The characters of `s` with every line feed left out.
pub open spec fn without_newlines(s: Seq<char>) -> Seq<char> {
    s.filter(|c: char| c != '\n')
}

/// Copies `s` leaving out every line feed.
pub fn strip_newlines(s: &str) -> (res: String)
    ensures
        res@ == without_newlines(s@),
{
    let mut out = String::new();
    let ghost full = s@;
    for c in it: s.chars()
        invariant
            it.seq() == full,
            out@ == without_newlines(full.take(it.index() as int)),
    {
        proof {
            let i = it.index() as int;
            assert(full.take(i + 1).drop_last() =~= full.take(i));
            reveal_with_fuel(Seq::filter, 1);
        }
        if c != '\n' {
            push_char_to(&mut out, c);
        }
    }
    proof {
        assert(full.take(full.len() as int) =~= full);
    }
    out
}

} // verus!
