//! Deterministic pseudo-random generation for input synthesis.
//!
//! The generator is an owned, seedable value threaded explicitly through the
//! campaign, never ambient state, so that a run can be replayed bit for bit
//! from its seed.  Each draw advances the state by a fixed odd constant and
//! feeds the new state through a finalizing mix of shifts and
//! multiplications (the splitmix64 permutation).

use vstd::prelude::*;

verus! {

/// The odd constant added to the state on every draw.
pub const STATE_INCREMENT: u64 = 0x9E37_79B9_7F4A_7C15;

/// First multiplier of the finalizing mix.
pub const MIX_MULTIPLIER_1: u64 = 0xBF58_476D_1CE4_E5B9;

/// Second multiplier of the finalizing mix.
pub const MIX_MULTIPLIER_2: u64 = 0x94D0_49BB_1331_11EB;

/// The generator: all of its behaviour is a function of this one word.
pub struct FuzzRng {
    pub state: u64,
}

/// The state after one draw from state `s`.
pub open spec fn next_state(s: u64) -> u64 {
    vstd::wrapping::u64_specs::wrapping_add(s, STATE_INCREMENT)
}

/// The finalizing mix applied to an advanced state.
pub open spec fn mix(z: u64) -> u64 {
    let z1 = vstd::wrapping::u64_specs::wrapping_mul(z ^ (z >> 30), MIX_MULTIPLIER_1);
    let z2 = vstd::wrapping::u64_specs::wrapping_mul(z1 ^ (z1 >> 27), MIX_MULTIPLIER_2);
    z2 ^ (z2 >> 31)
}

/// The 64-bit value produced by one draw from state `s`.
pub open spec fn draw_value(s: u64) -> u64 {
    mix(next_state(s))
}

/// The byte produced by one draw from state `s`: the low byte of the draw.
pub open spec fn draw_byte_value(s: u64) -> u8 {
    (draw_value(s) & 0xFF) as u8
}

/// The byte sequence produced by `n` successive draws from state `s`,
/// paired with the state left behind.
pub open spec fn draw_bytes(s: u64, n: nat) -> (Seq<u8>, u64)
    decreases n,
{
    if n == 0 {
        (Seq::empty(), s)
    } else {
        let (pre, s1) = draw_bytes(s, (n - 1) as nat);
        (pre.push(draw_byte_value(s1)), next_state(s1))
    }
}

impl FuzzRng {
    /// A generator whose first draw is determined by `seed` alone.
    pub fn from_seed(seed: u64) -> (r: FuzzRng)
        ensures
            r.state == seed,
    {
        FuzzRng { state: seed }
    }

    /// Draw one 64-bit value and advance the state.
    pub fn next_u64(&mut self) -> (r: u64)
        ensures
            final(self).state == next_state(old(self).state),
            r == draw_value(old(self).state),
    {
        self.state = self.state.wrapping_add(STATE_INCREMENT);
        let z0 = self.state;
        let z1 = (z0 ^ (z0 >> 30)).wrapping_mul(MIX_MULTIPLIER_1);
        let z2 = (z1 ^ (z1 >> 27)).wrapping_mul(MIX_MULTIPLIER_2);
        z2 ^ (z2 >> 31)
    }

    /// Draw one byte (the low byte of a full draw) and advance the state.
    pub fn next_byte(&mut self) -> (b: u8)
        ensures
            final(self).state == next_state(old(self).state),
            b == draw_byte_value(old(self).state),
    {
        let r = self.next_u64();
        let masked = r & 0xFF;
        proof {
            assert(r & 0xFF < 256) by (bit_vector);
        }
        masked as u8
    }

    /// Draw `n` bytes in order and advance the state `n` times.
    pub fn next_bytes(&mut self, n: usize) -> (b: Vec<u8>)
        ensures
            (b@, final(self).state) == draw_bytes(old(self).state, n as nat),
    {
        let mut out: Vec<u8> = Vec::new();
        let mut i: usize = 0;
        while i < n
            invariant
                i <= n,
                (out@, self.state) == draw_bytes(old(self).state, i as nat),
            decreases n - i,
        {
            let byte = self.next_byte();
            out.push(byte);
            i = i + 1;
        }
        out
    }
}

} // verus!
