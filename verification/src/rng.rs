//! The session's only source of randomness, behind a trusted boundary.

use vstd::prelude::*;

verus! {

/// Relies on `rand`'s `Uniform` distribution: `Uniform::new(low, high)`
/// samples uniformly from the half-open range `[low, high)`, and panics when
/// `low >= high`, so that case is excluded here. Nothing more is assumed of
/// the value drawn: callers must be correct for every result in the range.
#[verifier::external_body]
pub(crate) fn sample_uniform(low: u8, high: u8) -> (r: u8)
    requires
        low < high,
    ensures
        low <= r < high,
{
    let step = rand::distributions::Uniform::new(low, high);
    let mut rng = rand::thread_rng();
    rand::distributions::Distribution::sample(&step, &mut rng)
}

} // verus!
