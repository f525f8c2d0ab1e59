//! Text helpers over `str` that the standard library computes and whose
//! behaviour the contracts here restate.

use vstd::prelude::*;

verus! {

/// The characters of `s` with leading and trailing whitespace removed, as
/// `str::trim` computes them; a function of the characters alone.
pub uninterp spec fn trimmed(s: Seq<char>) -> Seq<char>;

/// True when `p`'s characters open `s`.
pub open spec fn is_char_prefix(p: Seq<char>, s: Seq<char>) -> bool {
    p.len() <= s.len() && s.subrange(0, p.len() as int) == p
}

/// Relies on str::trim, which removes leading and trailing whitespace and
/// therefore never lengthens a string, and on str::to_owned to copy the
/// result.
#[verifier::external_body]
pub fn trim_to_string(s: &str) -> (r: String)
    ensures
        r@ == trimmed(s@),
        r@.len() <= s@.len(),
        s@.len() == 0 ==> r@.len() == 0,
{
    s.trim().to_owned()
}

/// Relies on str::starts_with: true exactly when `prefix`'s characters
/// open `s`.
#[verifier::external_body]
pub fn str_starts_with(s: &str, prefix: &str) -> (r: bool)
    ensures
        r == is_char_prefix(prefix@, s@),
{
    s.starts_with(prefix)
}

} // verus!
