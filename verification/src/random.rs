//! Random values from the thread-local generator of the `rand` crate.

use vstd::prelude::*;

verus! {

/// Overwrites `buf` with random bytes (`rand::fill`). The bytes depend on
/// chance; only that the length is kept is stated.
#[verifier::external_body]
pub(crate) fn fill_random(buf: &mut Vec<u8>)
    ensures
        final(buf)@.len() == old(buf)@.len(),
{
    rand::fill(&mut buf[..]);
}

/// A random index below `n` (`rand::random_range(0..n)`, which panics on an
/// empty range, hence the requirement). Only the range of the result is stated.
#[verifier::external_body]
pub(crate) fn random_index(n: usize) -> (r: usize)
    requires
        n > 0,
    ensures
        r < n,
{
    rand::random_range(0..n)
}

} // verus!
