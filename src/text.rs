//! Text assembly helpers.
use vstd::prelude::*;

verus! {

/// Relies on `String::push_str`: appends the characters of `tail`.
#[verifier::external_body]
pub(crate) fn append(s: &mut String, tail: &str)
    ensures
        final(s)@ == old(s)@ + tail@,
{
    s.push_str(tail)
}

} // verus!
