//! Trigger gating: the refractory cooldown and the onset detector's hysteresis.
//!
//! The transient detectors' energy and flux are floating-point; the caller
//! reduces each sample to the comparisons it makes, and these gates decide
//! whether a layer may fire. The cooldown keeps a layer from machine-gunning
//! (a minimum spacing between firings); the onset gate only re-arms once the
//! flux has fallen back, so one long transient fires once.

use vstd::prelude::*;

verus! {

/// Samples of cooldown left after `k` ticks from `r`.
pub open spec fn after_ticks(r: nat, k: nat) -> nat
    decreases k,
{
    if k == 0 {
        r
    } else {
        let prev = after_ticks(r, (k - 1) as nat);
        if prev > 0 { (prev - 1) as nat } else { 0 }
    }
}

/// A refractory counter, ticked once per sample.
#[derive(Clone, Copy, Debug)]
pub struct Cooldown {
    remaining: u32,
}

impl View for Cooldown {
    type V = nat;

    closed spec fn view(&self) -> nat {
        self.remaining as nat
    }
}

impl Cooldown {
    /// A cooldown that is not running.
    pub fn new() -> (c: Cooldown)
        ensures
            c@ == 0,
    {
        Cooldown { remaining: 0 }
    }

    /// One sample passes.
    pub fn tick(&mut self)
        ensures
            final(self)@ == after_ticks(old(self)@, 1),
    {
        proof {
            reveal_with_fuel(after_ticks, 2);
        }
        if self.remaining > 0 {
            self.remaining = self.remaining - 1;
        }
    }

    /// Whether the layer may fire now.
    pub fn ready(&self) -> (b: bool)
        ensures
            b == (self@ == 0),
    {
        self.remaining == 0
    }

    /// Start a cooldown of `samples` samples (after a firing).
    pub fn arm(&mut self, samples: u32)
        ensures
            final(self)@ == samples,
    {
        self.remaining = samples;
    }

    /// One sample of a cooldown-gated trigger: tick, then fire if `want` and
    /// the cooldown has run out, starting a new cooldown of `refractory`
    /// samples. Returns whether it fired.
    pub fn step(&mut self, want: bool, refractory: u32) -> (fired: bool)
        ensures
            (final(self)@, fired) == gated_step(old(self)@, want, refractory as nat),
    {
        self.tick();
        if want && self.remaining == 0 {
            self.remaining = refractory;
            true
        } else {
            false
        }
    }

    /// Stop the cooldown (reset).
    pub fn clear(&mut self)
        ensures
            final(self)@ == 0,
    {
        self.remaining = 0;
    }
}

impl Default for Cooldown {
    fn default() -> (c: Cooldown)
        ensures
            c@ == 0,
    {
        Cooldown::new()
    }
}

/// One sample of a cooldown-gated trigger from `remaining`: `(remaining
/// after, fired)`.
pub open spec fn gated_step(remaining: nat, want: bool, refractory: nat) -> (nat, bool) {
    let t = after_ticks(remaining, 1);
    if want && t == 0 {
        (refractory, true)
    } else {
        (t, false)
    }
}

/// One gated sample: the layer fires exactly when it asks to and at most one
/// sample of cooldown was left (that sample's tick runs it out); a firing
/// restarts the cooldown at the refractory length, and otherwise the cooldown
/// just counts down one sample, stopping at zero.
pub proof fn lemma_gated_step(remaining: nat, want: bool, refractory: nat)
    ensures
        gated_step(remaining, want, refractory).1 <==> (want && remaining <= 1),
        gated_step(remaining, want, refractory).1 ==> gated_step(remaining, want, refractory).0 == refractory,
        !gated_step(remaining, want, refractory).1 ==> gated_step(remaining, want, refractory).0 == if remaining > 0 { (remaining - 1) as nat } else { 0 },
{
    reveal_with_fuel(after_ticks, 2);
}

/// The cooldown before sample `k` of a run that starts at `remaining` and asks
/// to fire on the samples where `wants` is true.
pub open spec fn cooldown_before(remaining: nat, wants: Seq<bool>, refractory: nat, k: nat) -> nat
    decreases k,
{
    if k == 0 {
        remaining
    } else {
        gated_step(cooldown_before(remaining, wants, refractory, (k - 1) as nat), wants[k - 1], refractory).0
    }
}

/// Whether sample `k` of such a run fires.
pub open spec fn fires_at(remaining: nat, wants: Seq<bool>, refractory: nat, k: nat) -> bool {
    gated_step(cooldown_before(remaining, wants, refractory, k), wants[k as int], refractory).1
}

/// No machine-gunning: after a firing with a refractory of `r` samples, none of
/// the next `r - 1` samples fires, whatever is asked of them.
pub proof fn lemma_firings_are_spaced(remaining: nat, wants: Seq<bool>, r: nat, i: nat, j: nat)
    requires
        j < wants.len(),
        i < j < i + r,
        fires_at(remaining, wants, r, i),
    ensures
        !fires_at(remaining, wants, r, j),
{
    lemma_cooldown_after_firing(remaining, wants, r, i, (j - i) as nat);
    reveal_with_fuel(after_ticks, 2);
}

proof fn lemma_cooldown_after_firing(remaining: nat, wants: Seq<bool>, r: nat, i: nat, d: nat)
    requires
        1 <= d < r,
        i + d < wants.len(),
        fires_at(remaining, wants, r, i),
    ensures
        cooldown_before(remaining, wants, r, i + d) == r - d + 1,
    decreases d,
{
    reveal_with_fuel(after_ticks, 2);
    if d > 1 {
        lemma_cooldown_after_firing(remaining, wants, r, i, (d - 1) as nat);
        assert(cooldown_before(remaining, wants, r, i + d) == gated_step(
            cooldown_before(remaining, wants, r, (i + d - 1) as nat),
            wants[i + d - 1],
            r,
        ).0);
    } else {
        assert(cooldown_before(remaining, wants, r, i + 1) == gated_step(
            cooldown_before(remaining, wants, r, i),
            wants[i as int],
            r,
        ).0);
    }
}

/// Minimum spacing: each sample ticks the cooldown before the layer asks
/// whether it may fire, so after arming with `r` it is refused on the next
/// `r - 1` samples and allowed again on the `r`-th.
pub proof fn lemma_refractory(r: nat, k: nat)
    ensures
        after_ticks(r, k) == if k >= r { 0 } else { (r - k) as nat },
        0 < k < r ==> after_ticks(r, k) != 0,
        after_ticks(r, r) == 0,
{
    lemma_refractory_exact(r, k);
    lemma_refractory_exact(r, r);
}

proof fn lemma_refractory_exact(r: nat, k: nat)
    ensures
        after_ticks(r, k) == if k >= r { 0 } else { (r - k) as nat },
    decreases k,
{
    if k > 0 {
        lemma_refractory_exact(r, (k - 1) as nat);
    }
}

/// One onset-gate step: `(armed after, fired)`.
pub open spec fn gate_step(armed: bool, above_high: bool, below_low: bool) -> (bool, bool) {
    if armed && above_high {
        (false, true)
    } else {
        (armed || below_low, false)
    }
}

/// Onset detector with hysteresis.
#[derive(Clone, Copy, Debug)]
pub struct OnsetGate {
    armed: bool,
}

impl View for OnsetGate {
    type V = bool;

    closed spec fn view(&self) -> bool {
        self.armed
    }
}

impl OnsetGate {
    /// An armed gate.
    pub fn new() -> (g: OnsetGate)
        ensures
            g@,
    {
        OnsetGate { armed: true }
    }

    /// Feed one sample's comparisons: whether the flux rose above the high
    /// threshold and whether it fell below the low one. Returns whether an
    /// onset fires.
    pub fn step(&mut self, above_high: bool, below_low: bool) -> (fired: bool)
        ensures
            (final(self)@, fired) == gate_step(old(self)@, above_high, below_low),
    {
        if self.armed && above_high {
            self.armed = false;
            true
        } else {
            if below_low {
                self.armed = true;
            }
            false
        }
    }

    /// Re-arm (reset).
    pub fn rearm(&mut self)
        ensures
            final(self)@,
    {
        self.armed = true;
    }
}

impl Default for OnsetGate {
    fn default() -> (g: OnsetGate)
        ensures
            g@,
    {
        OnsetGate::new()
    }
}

/// Number of onsets fired over a run of `(above_high, below_low)` samples.
pub open spec fn onsets(armed: bool, events: Seq<(bool, bool)>) -> nat
    decreases events.len(),
{
    if events.len() == 0 {
        0
    } else {
        let (next, fired) = gate_step(armed, events[0].0, events[0].1);
        (if fired { 1nat } else { 0nat }) + onsets(next, events.drop_first())
    }
}

/// Hysteresis: once the onset detector has fired it stays silent until the flux has
/// fallen below the low threshold; a run with no such sample fires nothing
/// more, however high the flux stays.
pub proof fn lemma_fires_once_per_rearm(events: Seq<(bool, bool)>)
    requires
        forall|i: int| 0 <= i < events.len() ==> !(#[trigger] events[i]).1,
    ensures
        onsets(false, events) == 0,
    decreases events.len(),
{
    if events.len() > 0 {
        assert forall|i: int| 0 <= i < events.drop_first().len() implies !(#[trigger] events.drop_first()[i]).1 by {
            assert(!events[i + 1].1);
        }
        lemma_fires_once_per_rearm(events.drop_first());
    }
}

/// Firing always disarms the onset detector.
pub proof fn lemma_fire_disarms(armed: bool, above_high: bool, below_low: bool)
    ensures
        gate_step(armed, above_high, below_low).1 ==> !gate_step(armed, above_high, below_low).0,
        gate_step(armed, above_high, below_low).1 ==> armed,
{
}


/// Only a firing disarms the onset detector, and only a sample below the low
/// threshold re-arms it: an onset fires exactly when an armed detector sees
/// the flux above the high threshold; an armed detector that does not fire
/// stays armed whatever the flux does; a disarmed one stays disarmed until
/// the flux falls below the low threshold.
pub proof fn lemma_only_firing_disarms(armed: bool, above_high: bool, below_low: bool)
    ensures
        gate_step(armed, above_high, below_low).1 <==> (armed && above_high),
        armed && !above_high ==> gate_step(armed, above_high, below_low).0,
        !armed ==> (gate_step(armed, above_high, below_low).0 <==> below_low),
{
}

/// An armed detector that sees flux between the thresholds (a transient on
/// its way up) stays armed, so the sample that then rises above the high
/// threshold fires an onset.
pub proof fn lemma_rise_through_band_fires(between: bool, rise_low: bool)
    ensures
        !gate_step(true, false, between).1,
        gate_step(gate_step(true, false, between).0, true, rise_low).1,
{
}

} // verus!
