//! Helpers over std strings: pulling the characters out of a `&str` and
//! growing a `String` one character at a time.
use vstd::prelude::*;

verus! {

/// Relies on `String::push`: appends the given character to the end of the
/// string.
#[verifier::external_body]
pub(crate) fn push_char(s: &mut String, c: char)
    ensures
        final(s)@ == old(s)@.push(c),
{
    s.push(c);
}

/// The characters that UTF-16 decoding of `units` yields, with malformed
/// sequences replaced; the result depends on the code units alone.
pub uninterp spec fn utf16_lossy_of(units: Seq<u16>) -> Seq<char>;

/// Relies on `String::from_utf16_lossy`: decodes UTF-16, replacing any
/// malformed sequence with the replacement character. Code units in the
/// ASCII range are their own code points, so an all-ASCII input decodes to
/// exactly those characters.
#[verifier::external_body]
pub(crate) fn utf16_lossy(units: &[u16]) -> (r: String)
    ensures
        r@ == utf16_lossy_of(units@),
        (forall|i: int| 0 <= i < units@.len() ==> units@[i] < 0x80) ==> (r@.len() == units@.len()
            && (forall|i: int| 0 <= i < r@.len() ==> r@[i] as u32 == units@[i] as u32)),
{
    String::from_utf16_lossy(units)
}

/// The characters of `s`, in order, as a vector.
pub(crate) fn str_chars(s: &str) -> (v: Vec<char>)
    ensures
        v@ == s@,
{
    let mut v: Vec<char> = Vec::new();
    for c in it: s.chars()
        invariant
            it.seq() == s@,
            v@ == it.seq().take(it.index() as int),
    {
        v.push(c);
    }
    proof {
        assert(v@ =~= s@);
    }
    v
}

} // verus!
