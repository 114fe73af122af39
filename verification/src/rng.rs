//! A small seedable Lehmer pseudo-random generator for the proximity colors.
//! Randomness is injected rather than ambient, so the distance-threshold
//! behavior of the nodes stays deterministic and testable.

use vstd::prelude::*;

verus! {

/// Modulus of the generator (a Mersenne prime).
pub const LCG_MOD: u64 = 2_147_483_647;

/// Multiplier of the generator.
pub const LCG_MUL: u64 = 48_271;

/// The generator state after one step.
pub open spec fn spec_next_state(s: int) -> int {
    (s * 48_271) % 2_147_483_647
}

/// The color channel drawn from a generator state: a value in [0, SCALE].
pub open spec fn spec_channel(s: int) -> int {
    s % 1001
}

/// A seedable multiplicative congruential generator.
#[derive(Clone, Copy, PartialEq, Eq, Structural, Debug)]
pub struct ColorRng {
    pub state: u64,
}

impl ColorRng {
    pub open spec fn wf(self) -> bool {
        self.state < 2_147_483_647
    }

    /// Creates a generator from an arbitrary seed. A seed that lands on the
    /// absorbing state 0 (where every later draw would stay 0) is moved to
    /// state 1, so every seed yields a live sequence.
    pub fn new(seed: u64) -> (r: ColorRng)
        ensures
            seed as int % 2_147_483_647 != 0 ==> r.state == seed as int % 2_147_483_647,
            seed as int % 2_147_483_647 == 0 ==> r.state == 1,
            r.state != 0,
            r.wf(),
    {
        let s = seed % LCG_MOD;
        if s == 0 {
            ColorRng { state: 1 }
        } else {
            ColorRng { state: s }
        }
    }

    /// Draws one color channel, scaled to [0, SCALE], advancing the state
    /// by one Lehmer step.
    pub fn next_channel(&mut self) -> (r: i64)
        requires
            old(self).wf(),
        ensures
            final(self).state == spec_next_state(old(self).state as int),
            final(self).wf(),
            r == spec_channel(final(self).state as int),
            0 <= r <= 1000,
    {
        proof {
            let s0 = old(self).state;
            assert(s0 * 48_271 <= 2_147_483_646 * 48_271) by (nonlinear_arith)
                requires
                    s0 <= 2_147_483_646u64,
            ;
        }
        self.state = (self.state * LCG_MUL) % LCG_MOD;
        (self.state % 1001) as i64
    }
}

} // verus!
