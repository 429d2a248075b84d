//! The structural hasher.
//!
//! Widgets fold every attribute that affects their layout into a [`Hasher`];
//! the host compares the resulting fingerprints to decide whether a cached
//! layout can be reused. The accumulator is deterministic: the same folded
//! values always produce the same fingerprint, in every process.

use vstd::prelude::*;

verus! {

/// The multiplier of the mixing step.
pub const HASH_PRIME: u64 = 0x100000001b3;

/// The state a fresh hasher starts from.
pub const HASH_SEED: u64 = 0xcbf29ce484222325;

/// One mixing step: the state after folding `value` into `state`.
pub open spec fn spec_mix(state: u64, value: u64) -> u64 {
    (state ^ value).wrapping_mul(HASH_PRIME)
}

/// A stable accumulator of layout-affecting configuration.
#[derive(Clone, Copy, Debug, PartialEq, Eq, Structural)]
pub struct Hasher {
    /// The running state.
    pub state: u64,
}

impl Hasher {
    /// Creates a hasher in its seed state.
    pub fn new() -> (h: Hasher)
        ensures
            h.state == HASH_SEED,
    {
        Hasher { state: HASH_SEED }
    }

    /// Folds one value into the running state.
    pub fn write_u64(&mut self, value: u64)
        ensures
            final(self).state == spec_mix(old(self).state, value),
    {
        self.state = (self.state ^ value).wrapping_mul(HASH_PRIME);
    }

    /// Folds one 32-bit value into the running state.
    pub fn write_u32(&mut self, value: u32)
        ensures
            final(self).state == spec_mix(old(self).state, value as u64),
    {
        self.write_u64(value as u64);
    }

    /// The accumulated fingerprint.
    pub fn finish(&self) -> (r: u64)
        ensures
            r == self.state,
    {
        self.state
    }
}

} // verus!
