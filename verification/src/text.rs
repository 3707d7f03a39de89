//! Lower-casing and message building for the option parsers.

use vstd::prelude::*;
use vstd::string::StringExecFns;

verus! {

/// The lowercase form of a character sequence, as Unicode case folding
/// produces it.  It depends on the characters alone.
pub uninterp spec fn lower_of(s: Seq<char>) -> Seq<char>;

/// Relies on str::to_lowercase: the lowercase form of the string, a
/// function of its characters alone.
#[verifier::external_body]
pub(crate) fn lowercase(s: &str) -> (r: String)
    ensures
        r@ == lower_of(s@),
{
    s.to_lowercase()
}

/// Builds a rejection message of the shape `<prefix><offending input><suffix>`.
pub(crate) fn invalid_msg(prefix: &str, s: &str, suffix: &str) -> (r: String)
    ensures
        r@ == prefix@ + s@ + suffix@,
{
    let mut m = prefix.to_owned();
    m.append(s);
    m.append(suffix);
    m
}

} // verus!
