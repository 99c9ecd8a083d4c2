//! The pseudo-random source capability, and one concrete source backed by the
//! xorshift generator of the `rand_xorshift` crate.
//!
//! A source is modelled by the stream of 32-bit values it will ever produce
//! and a position inside that stream.  Drawing a value returns the value at
//! the current position and advances the position by one; the stream itself
//! never changes.  This makes every run of the engine a pure function of the
//! source it was given.

use vstd::prelude::*;
use rand_core::RngCore;
use rand_core::SeedableRng;
use rand_xorshift::XorShiftRng;

verus! {

/// A fast pseudo-random source of 32-bit values, deterministic given a seed.
///
/// `outputs()` is the fixed stream of values the source will produce and
/// `pos()` the number of values drawn so far; `next_u32` hands out the value
/// at the current position and advances it.  A source is owned by one runner
/// at a time and is not meant to be shared.
pub trait RandomSource: Sized {
    /// The fixed stream of values this source produces, by position.
    spec fn outputs(&self) -> spec_fn(nat) -> u32;

    /// How many values have been drawn from the stream so far.
    spec fn pos(&self) -> nat;

    /// Draw the next 32-bit value from the stream.
    fn next_u32(&mut self) -> (r: u32)
        ensures
            final(self).outputs() == old(self).outputs(),
            final(self).pos() == old(self).pos() + 1,
            r == (old(self).outputs())(old(self).pos()),
    ;
}

#[verifier::external_type_specification]
#[verifier::external_body]
pub struct ExXorShiftRng(XorShiftRng);

/// The value that a `XorShiftRng` seeded with `XorShiftRng::seed_from_u64(seed)`
/// produces on its `draws`-th call of `next_u32`.  Both functions are pure:
/// seeding builds the four state words from the seed alone, and each draw is
/// a fixed shift-and-xor step of that state, so the value depends on `seed`
/// and `draws` and on nothing else.
pub uninterp spec fn xorshift_stream(seed: u64, draws: nat) -> u32;

/// The stream of the xorshift generator for a given seed.
pub open spec fn xorshift_outputs(seed: u64) -> spec_fn(nat) -> u32 {
    |i: nat| xorshift_stream(seed, i)
}

/// A `RandomSource` backed by `rand_xorshift::XorShiftRng`, remembering the
/// seed it was built from and how many values it has handed out.
pub struct XorShiftSource {
    rng: XorShiftRng,
    seed: Ghost<u64>,
    drawn: Ghost<nat>,
}

/// Relies on `XorShiftRng::seed_from_u64`: seeding is deterministic, a pure
/// function of the `u64` seed, and it does not panic.
#[verifier::external_body]
fn xorshift_seeded(seed: u64) -> XorShiftRng {
    XorShiftRng::seed_from_u64(seed)
}

impl XorShiftSource {
    /// The seed this source was built from.
    pub closed spec fn seed(&self) -> u64 {
        self.seed@
    }

    /// A fresh source seeded with `XorShiftRng::seed_from_u64(seed)`, with no
    /// values drawn yet.
    pub fn new(seed: u64) -> (s: Self)
        ensures
            s.seed() == seed,
            s.pos() == 0,
            s.outputs() == xorshift_outputs(seed),
    {
        XorShiftSource { rng: xorshift_seeded(seed), seed: Ghost(seed), drawn: Ghost(0nat) }
    }

    /// Relies on `XorShiftRng::next_u32`: the output is a pure function of
    /// the generator state, and that state is determined by the seed and the
    /// number of draws made since seeding, which is what `xorshift_stream`
    /// names.  The fields of this type are private, so every value of it was
    /// built by `new` and advanced only here, which keeps the generator at
    /// exactly `pos()` draws past seeding with `seed()`.
    #[verifier::external_body]
    fn step(&mut self) -> (r: u32)
        ensures
            final(self).seed() == old(self).seed(),
            final(self).pos() == old(self).pos() + 1,
            r == xorshift_stream(old(self).seed(), old(self).pos()),
    {
        self.rng.next_u32()
    }
}

impl RandomSource for XorShiftSource {
    closed spec fn outputs(&self) -> spec_fn(nat) -> u32 {
        xorshift_outputs(self.seed@)
    }

    closed spec fn pos(&self) -> nat {
        self.drawn@
    }

    fn next_u32(&mut self) -> (r: u32) {
        self.step()
    }
}

} // verus!
