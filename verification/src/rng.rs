//! Deterministic bounded pseudo-random generator.
//!
//! The generator is seeded once at startup and then drawn from by the combat
//! resolver and the script engine.  Every draw is fully determined by the
//! state it starts from, so a battle replayed from the same seed takes the
//! same course.

use vstd::prelude::*;

verus! {

/// Multiplier of the linear-congruential state step.
pub const STATE_MUL: u64 = 6364136223846793005;

/// Increment of the linear-congruential state step.
pub const STATE_INC: u64 = 1442695040888963407;

/// The generator state that follows `s`.
pub open spec fn spec_next_state(s: u64) -> u64 {
    vstd::wrapping::u64_specs::wrapping_add(
        vstd::wrapping::u64_specs::wrapping_mul(s, STATE_MUL),
        STATE_INC,
    )
}

/// The bounded value drawn when the state steps from `s` with bound `n`:
/// the upper bits of the new state, reduced modulo `n`.
pub open spec fn spec_draw(s: u64, n: u32) -> u32
    recommends
        n >= 1,
{
    (((spec_next_state(s) as int) / 0x2_0000_0000) % (n as int)) as u32
}

/// Deterministic pseudo-random generator with a 64-bit state.
pub struct Rng {
    state: u64,
}

impl View for Rng {
    type V = u64;

    closed spec fn view(&self) -> u64 {
        self.state
    }
}

impl Rng {
    /// A generator starting from the given seed.
    pub fn new(seed: u64) -> (r: Rng)
        ensures
            r@ == seed,
    {
        Rng { state: seed }
    }

    /// One draw in `[0, n)`; steps the state exactly once.
    pub fn random(&mut self, n: u32) -> (r: u32)
        requires
            n >= 1,
        ensures
            final(self)@ == spec_next_state(old(self)@),
            r == spec_draw(old(self)@, n),
            r < n,
    {
        let next = self.state.wrapping_mul(STATE_MUL).wrapping_add(STATE_INC);
        self.state = next;
        ((next / 0x2_0000_0000) % (n as u64)) as u32
    }
}

/// Relies on miniquad::date::now: the seconds since the Unix epoch, read
/// from the system clock; used only to seed the generator at startup.
/// The call itself panics on a machine whose clock reads before the epoch,
/// an environmental condition no precondition can exclude.
#[verifier::external_body]
fn seed_from_clock() -> u64 {
    miniquad::date::now() as u64
}

impl Rng {
    /// A generator seeded from the system clock.
    pub fn from_clock() -> Rng {
        Rng::new(seed_from_clock())
    }
}

} // verus!
