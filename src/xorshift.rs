//! The xorshift64 generator: one 64-bit word of state.
use vstd::prelude::*;

verus! {

/// The value mixed into a seed to give the starting state.
pub const SEED_STATE_XOR_VALUE: u64 = 132366047211908;

/// One xorshift64 step with shifts (13, 7, 17): the new state, which is also
/// the output.
pub open spec fn xorshift_step(x: u64) -> u64 {
    let x1 = x ^ (x << 13u64);
    let x2 = x1 ^ (x1 >> 7u64);
    x2 ^ (x2 << 17u64)
}

pub struct XorShift64 {
    pub state: u64,
}

impl XorShift64 {
    /// A generator with state zero (a fixed point: seed it before use).
    pub fn new() -> (r: Self)
        ensures
            r.state == 0,
    {
        Self { state: 0 }
    }

    /// A generator seeded with `seed`.
    pub fn from_seed(seed: u64) -> (r: Self)
        ensures
            r.state == seed ^ SEED_STATE_XOR_VALUE,
    {
        let mut state = Self::new();
        state.set_seed(seed);
        state
    }

    /// Replace the state by the one that `seed` gives.
    pub fn set_seed(&mut self, seed: u64)
        ensures
            final(self).state == seed ^ SEED_STATE_XOR_VALUE,
    {
        self.state = seed ^ SEED_STATE_XOR_VALUE;
    }

    /// Advance the state by one step and return it.
    pub fn next(&mut self) -> (r: u64)
        ensures
            r == xorshift_step(old(self).state),
            final(self).state == r,
    {
        xorshift64(&mut self.state)
    }
}

/// Advance `state` by one xorshift64 step and return the new state.
pub fn xorshift64(state: &mut u64) -> (r: u64)
    ensures
        r == xorshift_step(*old(state)),
        *final(state) == r,
{
    let mut x = *state;
    x ^= x << 13;
    x ^= x >> 7;
    x ^= x << 17;
    *state = x;
    *state
}

} // verus!
