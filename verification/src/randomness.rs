//! The library's only sources of randomness, wrapped with contracts that
//! hold of every outcome.

use vstd::prelude::*;

verus! {

/// An ASCII letter or digit, the alphabet random identifiers draw from.
pub open spec fn is_ascii_alphanumeric_char(c: char) -> bool {
    ('0' <= c && c <= '9') || ('a' <= c && c <= 'z') || ('A' <= c && c <= 'Z')
}

/// Relies on rand's `Rng::gen_range`: the result lies in `[low, high)`,
/// and the call panics when `low >= high`.
#[verifier::external_body]
pub(crate) fn random_in_range(low: u32, high: u32) -> (n: u32)
    requires
        low < high,
    ensures
        low <= n < high,
{
    rand::Rng::gen_range(&mut rand::thread_rng(), low, high)
}

/// Relies on rand's `Alphanumeric` distribution: every sample is one of
/// `A`-`Z`, `a`-`z`, `0`-`9`, and `take(len)` keeps exactly `len` of them.
#[verifier::external_body]
pub(crate) fn random_alphanumeric(len: usize) -> (s: String)
    ensures
        s@.len() == len,
        forall|i: int| 0 <= i < s@.len() ==> is_ascii_alphanumeric_char(s@[i]),
{
    rand::Rng::sample_iter(rand::thread_rng(), &rand::distributions::Alphanumeric)
        .take(len)
        .collect()
}

} // verus!
