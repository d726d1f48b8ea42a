//! A small deterministic pseudo-random stream (xorshift64*).
//!
//! One mutable stream is threaded sequentially through document generation
//! and directive resolution, so a fixed seed replays the exact same game.

use vstd::prelude::*;

verus! {

/// The xorshift64* output multiplier.
pub const MULTIPLIER: u64 = 0x2545F4914F6CDD1D;

/// One xorshift64* state transition.
pub open spec fn xorshift_step(s: u64) -> u64 {
    let a = s ^ (s >> 12);
    let b = a ^ (a << 25);
    b ^ (b >> 27)
}

/// The value handed out after a state transition from `s`.
pub open spec fn xorshift_out(s: u64) -> u64 {
    vstd::wrapping::u64_specs::wrapping_mul(xorshift_step(s), MULTIPLIER)
}

/// A deterministic pseudo-random generator; its view is its 64-bit state.
pub struct SimpleRng {
    state: u64,
}

impl View for SimpleRng {
    type V = u64;

    closed spec fn view(&self) -> u64 {
        self.state
    }
}

impl SimpleRng {
    /// Builds a generator from a caller-supplied seed.
    pub fn new(seed: u64) -> (r: Self)
        ensures
            r@ == seed,
    {
        Self { state: seed }
    }

    /// Advances the stream once and returns the next raw 64-bit value.
    pub fn next_u64(&mut self) -> (r: u64)
        ensures
            final(self)@ == xorshift_step(old(self)@),
            r == xorshift_out(old(self)@),
    {
        let mut x = self.state;
        x = x ^ (x >> 12);
        x = x ^ (x << 25);
        x = x ^ (x >> 27);
        self.state = x;
        x.wrapping_mul(MULTIPLIER)
    }

    /// A uniform draw from the half-open range `min..max`; when the range is
    /// empty the stream is left untouched and `min` comes back.
    pub fn range(&mut self, min: u64, max: u64) -> (r: u64)
        ensures
            min >= max ==> final(self)@ == old(self)@ && r == min,
            min < max ==> final(self)@ == xorshift_step(old(self)@) && r == min + xorshift_out(
                old(self)@,
            ) as int % (max - min),
            min <= r,
            min < max ==> r < max,
    {
        if min >= max {
            return min;
        }
        let draw = self.next_u64();
        min + draw % (max - min)
    }

    /// A draw in `0..1000`, standing for a fraction of the unit interval.
    pub fn next_permille(&mut self) -> (r: u64)
        ensures
            final(self)@ == xorshift_step(old(self)@),
            r == xorshift_out(old(self)@) % 1000,
            r < 1000,
    {
        let draw = self.next_u64();
        draw % 1000
    }

    /// A weighted coin: true with probability `p_permille` thousandths.
    pub fn chance(&mut self, p_permille: u64) -> (b: bool)
        ensures
            final(self)@ == xorshift_step(old(self)@),
            b == (xorshift_out(old(self)@) % 1000 < p_permille),
    {
        let draw = self.next_permille();
        draw < p_permille
    }
}

} // verus!
