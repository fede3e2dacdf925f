//! Small trusted bridges to string operations of std that vstd does not
//! specify, together with the spec-level names their contracts use.
use vstd::prelude::*;

verus! {

/// The character sequence that `str::trim` leaves after removing leading and
/// trailing whitespace; it depends on the input characters alone.
pub uninterp spec fn trim_of(s: Seq<char>) -> Seq<char>;

/// Relies on `str::trim`: returns the input with leading and trailing
/// whitespace removed, so the result is never longer than the input and the
/// empty string stays empty.
#[verifier::external_body]
pub(crate) fn trim(s: &str) -> (r: &str)
    ensures
        r@ == trim_of(s@),
        r@.len() <= s@.len(),
        s@.len() == 0 ==> r@.len() == 0,
{
    s.trim()
}

/// Relies on `str`'s `PartialEq` implementation: two string slices are equal
/// exactly when their character sequences are equal.
#[verifier::external_body]
pub(crate) fn str_eq(a: &str, b: &str) -> (r: bool)
    ensures
        r == (a@ == b@),
{
    a == b
}

/// Relies on `String::push`: appends exactly one character at the end.
#[verifier::external_body]
pub(crate) fn push_char(s: &mut String, c: char)
    ensures
        final(s)@ == old(s)@.push(c),
{
    s.push(c)
}

} // verus!
