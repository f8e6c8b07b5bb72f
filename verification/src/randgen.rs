//! Random identifier generation.

use rand::distributions::Alphanumeric;
use rand::distributions::DistString;
use vstd::prelude::*;

verus! {

/// Whether a character is an ASCII letter or digit.
pub open spec fn ascii_alphanumeric(c: char) -> bool {
    ||| ('0' as int) <= (c as int) <= ('9' as int)
    ||| ('A' as int) <= (c as int) <= ('Z' as int)
    ||| ('a' as int) <= (c as int) <= ('z' as int)
}

/// Relies on rand's `Alphanumeric` distribution
/// (`DistString::sample_string`): the result holds exactly `len`
/// characters, each a random ASCII letter or digit — which is what
/// makes the result safe inside a header value or a URL path. Nothing
/// more can be promised of a random value.
#[verifier::external_body]
pub(crate) fn random_alphanumeric(len: usize) -> (r: String)
    ensures
        r@.len() == len as int,
        forall|i: int| 0 <= i < r@.len() ==> ascii_alphanumeric(#[trigger] r@[i]),
{
    Alphanumeric.sample_string(&mut rand::thread_rng(), len)
}

} // verus!
