//! Hashing of coverage maps.
//!
//! The AFL-style schedulers bucket every observed coverage map by a 64-bit
//! hash. With its default features, `libafl_bolts::hash_std` is the xxh3
//! digest of the bytes — a function of the input alone, far too long to
//! state here — so the result is given a name, [`hash_of`], and every
//! contract that depends on the hash speaks of that name.

use vstd::prelude::*;

verus! {

/// The 64-bit digest that `libafl_bolts::hash_std` computes for the given
/// bytes: it depends on the bytes alone.
pub uninterp spec fn hash_of(bytes: Seq<u8>) -> u64;

/// Relies on `libafl_bolts::hash_std`: the xxh3 digest of the given bytes
/// (the `xxh3` feature is on by default), a function of the bytes alone.
#[verifier::external_body]
pub fn hash_map_bytes(bytes: &Vec<u8>) -> (r: u64)
    ensures
        r == hash_of(bytes@),
{
    libafl_bolts::hash_std(bytes.as_slice())
}

} // verus!
