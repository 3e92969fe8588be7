//! Random values drawn from rand's thread-local generator.
use rand::Rng;
use vstd::prelude::*;

verus! {

/// Relies on rand's `rng().random_range(0..u16::MAX)`: a value of the half-open range, so
/// below `u16::MAX`.
#[verifier::external_body]
pub(crate) fn random_identification() -> (r: u16)
    ensures
        r < 65535,
{
    rand::rng().random_range(0..u16::MAX)
}

} // verus!
