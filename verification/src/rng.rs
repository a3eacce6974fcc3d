//! The random source: a seedable generator backed by the `rand` crate.
//!
//! The outside calls stand behind trusted wrappers; nothing is promised
//! of the values they return, so everything proved downstream holds for
//! every possible random draw.

use vstd::prelude::*;

use crate::fixed::Fx;
use crate::fixed::SCALE;

verus! {

/// Declares the outside generator type `rand::rngs::StdRng` so that it
/// can stand in fields and signatures; its values are opaque here.
#[verifier::external_type_specification]
#[verifier::external_body]
pub struct ExStdRng(rand::rngs::StdRng);

/// Relies on rand::SeedableRng::seed_from_u64: builds a generator from
/// a 64-bit seed (deterministically, per its documentation).
#[verifier::external_body]
fn std_rng_from_seed(seed: u64) -> rand::rngs::StdRng {
    rand::SeedableRng::seed_from_u64(seed)
}

/// Relies on rand::Rng::next_u32: returns the generator's next 32 random
/// bits. Nothing is assumed about the value.
#[verifier::external_body]
fn std_rng_next_u32(r: &mut rand::rngs::StdRng) -> u32 {
    rand::Rng::next_u32(r)
}

/// A seedable uniform random source.
pub struct RandomSource {
    inner: rand::rngs::StdRng,
}

impl RandomSource {
    /// A source seeded with the given value; equal seeds give equal
    /// streams.
    pub fn from_seed(seed: u64) -> RandomSource {
        RandomSource { inner: std_rng_from_seed(seed) }
    }

    /// The next 32 random bits.
    pub fn next_bits(&mut self) -> u32 {
        std_rng_next_u32(&mut self.inner)
    }

    /// A random scalar in `[0, 1)`.
    pub fn next_unit(&mut self) -> (r: Fx)
        ensures
            0 <= r@ < SCALE as int,
            r.ok(),
    {
        let bits = self.next_bits();
        let m: u32 = bits & 0xFFFF;
        proof {
            assert(bits & 0xFFFF <= 0xFFFF) by (bit_vector);
        }
        Fx { raw: m as i128 }
    }

    /// A random scalar in `[-1, 1)`.
    pub fn next_symmetric(&mut self) -> (r: Fx)
        ensures
            -(SCALE as int) <= r@ < SCALE as int,
            r.ok(),
    {
        let bits = self.next_bits();
        let m: u32 = bits & 0x1FFFF;
        proof {
            assert(bits & 0x1FFFF <= 0x1FFFF) by (bit_vector);
        }
        Fx { raw: (m as i128) - SCALE }
    }
}

} // verus!
