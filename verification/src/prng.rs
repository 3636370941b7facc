//! The engine's injectable source of randomness.
//!
//! Spawn jitter and color-sequence seeding draw from a deterministic linear
//! congruential generator owned by the component that needs it, seeded by the
//! caller. Every draw is therefore a pure function of the seed, which is what
//! lets the contracts below state each outcome exactly and lets tests
//! substitute a fixed sequence.

use crate::fixed::SCALE;
use vstd::prelude::*;

verus! {

/// Multiplier of the linear congruential step.
pub const LCG_MULT: u64 = 1_103_515_245;

/// Increment of the linear congruential step.
pub const LCG_INC: u64 = 12_345;

/// Modulus of the linear congruential step: 2^31.
pub const LCG_MOD: u64 = 2_147_483_648;

/// The state that follows `s` in the congruential sequence.
pub open spec fn lcg_next(s: int) -> int {
    (LCG_MULT * s + LCG_INC) % (LCG_MOD as int)
}

/// The fixed-point value in `[0, SCALE)` read off a state: a sample of the
/// unit interval in micro-units.
pub open spec fn lcg_unit(s: int) -> int {
    lcg_next(s) % (SCALE as int)
}

/// A linear congruential generator.
#[derive(Clone, Copy, Debug)]
pub struct Lcg {
    state: u64,
}

impl Lcg {
    /// The current state, for contracts.
    pub closed spec fn raw(self) -> int {
        self.state as int
    }

    /// The state is always a residue of the modulus.
    pub closed spec fn inv(self) -> bool {
        self.state < LCG_MOD
    }

    /// Starts the sequence at `seed`, reduced into the state space.
    pub fn new(seed: u64) -> (r: Lcg)
        ensures
            r.inv(),
            r.raw() == (seed as int) % (LCG_MOD as int),
    {
        Lcg { state: seed % LCG_MOD }
    }

    /// Advances one step and returns the new raw state.
    pub fn next_raw(&mut self) -> (s: u64)
        requires
            old(self).inv(),
        ensures
            final(self).inv(),
            final(self).raw() == lcg_next(old(self).raw()),
            s == final(self).raw(),
    {
        proof {
            let s = self.state;
            assert(LCG_MULT * s + LCG_INC <= u64::MAX) by (nonlinear_arith)
                requires
                    s < LCG_MOD,
            ;
        }
        self.state = (LCG_MULT * self.state + LCG_INC) % LCG_MOD;
        self.state
    }

    /// Advances one step and samples the unit interval: a fixed-point value
    /// in `[0, SCALE)` micro-units, determined by the state alone.
    pub fn next_unit(&mut self) -> (h: i64)
        requires
            old(self).inv(),
        ensures
            final(self).inv(),
            final(self).raw() == lcg_next(old(self).raw()),
            h == lcg_unit(old(self).raw()),
            0 <= h < SCALE,
    {
        let s = self.next_raw();
        (s % (SCALE as u64)) as i64
    }
}

} // verus!
