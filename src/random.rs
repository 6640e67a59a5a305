//! The source of initial parameters: a seeded generator of the rand crate.

use rand::Rng;
use vstd::prelude::*;

verus! {

#[verifier::external_type_specification]
#[verifier::external_body]
pub struct ExStdRng(rand::rngs::StdRng);

/// Relies on rand's `Rng::random_range` over an inclusive integer range: a
/// value between the two bounds, both included. It panics only on an empty
/// range, which `requires` leaves out.
#[verifier::external_body]
pub(crate) fn draw_between(rng: &mut rand::rngs::StdRng, low: i32, high: i32) -> (r: i32)
    requires
        low <= high,
    ensures
        low <= r <= high,
{
    rng.random_range(low..=high)
}

} // verus!
