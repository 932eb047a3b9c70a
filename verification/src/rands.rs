//! Access to the campaign random number generator.
//!
//! The schedulers draw randomness from `libafl_bolts`' standard generator.
//! The generator's state is opaque here: nothing is assumed of the values it
//! produces beyond the documented bound of `below`, so every verified
//! function that consumes a draw is correct for every possible outcome.

use vstd::prelude::*;

verus! {

#[verifier::external_type_specification]
#[verifier::external_body]
pub struct ExRomuDuoJrRand(libafl_bolts::rands::RomuDuoJrRand);

/// Relies on `libafl_bolts::rands::RomuDuoJrRand::with_seed`: builds the
/// standard generator from a 64-bit seed.
#[verifier::external_body]
pub fn rand_with_seed(seed: u64) -> libafl_bolts::rands::RomuDuoJrRand {
    libafl_bolts::rands::RomuDuoJrRand::with_seed(seed)
}

/// Relies on `libafl_bolts::rands::Rand::next`: the next 64-bit value of the
/// generator. Nothing is assumed of the value.
#[verifier::external_body]
pub fn rand_next(rand: &mut libafl_bolts::rands::RomuDuoJrRand) -> u64 {
    libafl_bolts::rands::Rand::next(rand)
}

/// Relies on `libafl_bolts::rands::Rand::below`, which maps a 64-bit draw
/// into `0..upper_bound_excl` (`fast_bound` multiplies the draw by the bound
/// and keeps the high 64 bits, so the result is strictly below the bound).
#[verifier::external_body]
pub fn rand_below(rand: &mut libafl_bolts::rands::RomuDuoJrRand, upper_bound_excl: usize) -> (r: usize)
    requires
        upper_bound_excl >= 1,
    ensures
        r < upper_bound_excl,
{
    libafl_bolts::rands::Rand::below(
        rand,
        core::num::NonZeroUsize::new(upper_bound_excl).unwrap(),
    )
}

} // verus!
