//! The random source of the game.
use vstd::prelude::*;
use bevy_prng::WyRand;
use rand::Rng;
use rand_core::RngCore;

verus! {

/// `bevy_prng::WyRand`, the generator that the game draws from. Nothing of
/// its state is visible here.
#[verifier::external_type_specification]
#[verifier::external_body]
pub struct ExWyRand(WyRand);

/// The next 32 bits of the generator, by `rand_core::RngCore::next_u32`.
/// Nothing is claimed of the value.
#[verifier::external_body]
pub(crate) fn next_u32(rng: &mut WyRand) -> (r: u32) {
    rng.next_u32()
}

/// An integer drawn from `low..=high`, by `rand::Rng::gen_range`. The
/// claim is that the value lies in the range. The call panics on an empty
/// range, which the precondition rules out.
#[verifier::external_body]
pub(crate) fn gen_range_inclusive(rng: &mut WyRand, low: i32, high: i32) -> (r: i32)
    requires
        low <= high,
    ensures
        low <= r <= high,
{
    rng.gen_range(low..=high)
}

} // verus!
