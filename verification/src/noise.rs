//! Seeded integer generators behind the instruments' noise and random choices.
//!
//! `Noise` is the oscillator section's xorshift32 white-noise source; `Lcg` is
//! the linear congruential generator that drives the arp, string-bed and
//! freeze decisions. Both are deterministic: the same seed gives the same
//! sequence. The caller maps the integers to audio-range floats.

use vstd::prelude::*;

verus! {

/// One xorshift32 step (shifts 13, 17, 5).
pub open spec fn xorshift32(x: u32) -> u32 {
    let a = x ^ (x << 13u32);
    let b = a ^ (a >> 17u32);
    b ^ (b << 5u32)
}

/// Stack-resident xorshift32 noise source. Its state is never zero (zero is
/// the generator's fixed point, which would silence it).
#[derive(Clone, Copy, Debug)]
pub struct Noise {
    state: u32,
}

impl View for Noise {
    type V = u32;

    closed spec fn view(&self) -> u32 {
        self.state
    }
}

impl Noise {
    #[verifier::type_invariant]
    closed spec fn state_nonzero(self) -> bool {
        self.state != 0
    }

    /// A generator seeded with `seed`, forced odd so it is never zero.
    pub fn new(seed: u32) -> (n: Noise)
        ensures
            n@ == seed | 1u32,
            n@ != 0,
    {
        let state = seed | 1u32;
        assert(seed | 1u32 != 0u32) by (bit_vector);
        Noise { state }
    }

    /// Advance one step and return the new state.
    pub fn next_u32(&mut self) -> (x: u32)
        ensures
            x == xorshift32(old(self)@),
            final(self)@ == x,
            x != 0,
    {
        proof {
            use_type_invariant(&*self);
            lemma_xorshift_nonzero(self.state);
        }
        let mut x = self.state;
        x = x ^ (x << 13u32);
        x = x ^ (x >> 17u32);
        x = x ^ (x << 5u32);
        self.state = x;
        x
    }
}

/// xorshift32 maps every non-zero state to a non-zero state, so a generator
/// seeded away from zero never reaches the zero fixed point.
pub proof fn lemma_xorshift_nonzero(x: u32)
    requires
        x != 0,
    ensures
        xorshift32(x) != 0,
{
    let a = x ^ (x << 13u32);
    let b = a ^ (a >> 17u32);
    assert(x != 0 ==> x ^ (x << 13u32) != 0) by (bit_vector);
    assert(a != 0 ==> a ^ (a >> 17u32) != 0) by (bit_vector);
    assert(b != 0 ==> b ^ (b << 5u32) != 0) by (bit_vector);
}

/// The generator's states after `n` steps from `x`, in order.
pub open spec fn xorshift_states(x: u32, n: nat) -> Seq<u32>
    decreases n,
{
    if n == 0 {
        Seq::empty()
    } else {
        let y = xorshift32(x);
        seq![y] + xorshift_states(y, (n - 1) as nat)
    }
}

/// Seeded away from zero, the noise source never produces zero however long
/// it runs.
pub proof fn lemma_noise_never_zero(x: u32, n: nat)
    requires
        x != 0,
    ensures
        xorshift_states(x, n).len() == n,
        forall|i: int| 0 <= i < n ==> #[trigger] xorshift_states(x, n)[i] != 0,
    decreases n,
{
    if n > 0 {
        let y = xorshift32(x);
        lemma_xorshift_nonzero(x);
        lemma_noise_never_zero(y, (n - 1) as nat);
        assert forall|i: int| 0 <= i < n implies #[trigger] xorshift_states(x, n)[i] != 0 by {
            if i > 0 {
                assert(xorshift_states(x, n)[i] == xorshift_states(y, (n - 1) as nat)[i - 1]);
            }
        }
    }
}

/// One step of the linear congruential generator (x · 1664525 + 1013904223 mod 2³²).
pub open spec fn lcg_step(x: u32) -> u32 {
    ((x as nat * 1664525 + 1013904223) % 0x1_0000_0000) as u32
}

/// Linear congruential generator; each draw is the top 23 bits of the new
/// state, a uniform integer in `[0, 2²³)` that the caller scales to `[0, 1)`.
#[derive(Clone, Copy, Debug)]
pub struct Lcg {
    state: u32,
}

impl View for Lcg {
    type V = u32;

    closed spec fn view(&self) -> u32 {
        self.state
    }
}

/// The exclusive bound of an `Lcg` draw: 2²³.
pub const DRAW_RANGE: u32 = 0x80_0000;

impl Lcg {
    /// A generator whose state is `seed`.
    pub fn new(seed: u32) -> (g: Lcg)
        ensures
            g@ == seed,
    {
        Lcg { state: seed }
    }

    /// The current state (also used to seed per-voice generators).
    pub fn state(&self) -> (x: u32)
        ensures
            x == self@,
    {
        self.state
    }

    /// Step the generator and return the draw: the new state shifted right by 9.
    pub fn next_draw(&mut self) -> (d: u32)
        ensures
            final(self)@ == lcg_step(old(self)@),
            d == final(self)@ >> 9u32,
            d < DRAW_RANGE,
    {
        let m = self.state.wrapping_mul(1_664_525u32);
        let x = m.wrapping_add(1_013_904_223u32);
        proof {
            let s = self.state as nat;
            assert(m as nat == (s * 1664525) % 0x1_0000_0000);
            assert(x as nat == (s * 1664525 + 1013904223) % 0x1_0000_0000) by (nonlinear_arith)
                requires
                    m as nat == (s * 1664525) % 0x1_0000_0000,
                    x as nat == if m + 1013904223 > 0xffff_ffff { m + 1013904223 - 0x1_0000_0000 } else { m + 1013904223 },
            ;
        }
        self.state = x;
        assert(x >> 9u32 < 0x80_0000u32) by (bit_vector);
        x >> 9u32
    }
}

/// Whether a draw falls in the upper half of its range (a fair coin: the
/// draw scaled to `[0, 2)` and floored).
pub fn upper_half(d: u32) -> (b: bool)
    requires
        d < DRAW_RANGE,
    ensures
        b == (d >= DRAW_RANGE / 2),
{
    d >= DRAW_RANGE / 2
}

} // verus!
