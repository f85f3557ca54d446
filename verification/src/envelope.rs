//! The ADSR envelope's stage machine.
//!
//! The envelope level itself is floating-point and computed by the caller;
//! this module decides which stage the envelope is in. Each sample the caller
//! reports whether the current segment reached its target (`reached`), and the
//! stage advances: Attack → Decay → Sustain on the way up, Release → Idle on
//! the way out. Gating on always restarts the attack; gating off releases any
//! sounding envelope and leaves an idle one idle.

use vstd::prelude::*;

verus! {

/// Stage of an ADSR envelope.
#[derive(Clone, Copy, Debug, PartialEq, Eq, Structural)]
pub enum EnvStage {
    Idle,
    Attack,
    Decay,
    Sustain,
    Release,
}

/// The stage after one sample, given whether the current segment reached its
/// target on that sample.
pub open spec fn stage_after(stage: EnvStage, reached: bool) -> EnvStage {
    match stage {
        EnvStage::Attack => if reached { EnvStage::Decay } else { EnvStage::Attack },
        EnvStage::Decay => if reached { EnvStage::Sustain } else { EnvStage::Decay },
        EnvStage::Release => if reached { EnvStage::Idle } else { EnvStage::Release },
        other => other,
    }
}

/// The stage after gating off.
pub open spec fn stage_after_gate_off(stage: EnvStage) -> EnvStage {
    if stage == EnvStage::Idle { EnvStage::Idle } else { EnvStage::Release }
}

/// The stage after running one sample per entry of `reached`.
pub open spec fn stage_after_run(stage: EnvStage, reached: Seq<bool>) -> EnvStage
    decreases reached.len(),
{
    if reached.len() == 0 {
        stage
    } else {
        stage_after_run(stage_after(stage, reached[0]), reached.drop_first())
    }
}

/// A stage reached after gating off: releasing or finished.
pub open spec fn is_winding_down(stage: EnvStage) -> bool {
    stage == EnvStage::Release || stage == EnvStage::Idle
}

impl EnvStage {
    /// Gate on: every stage (a fresh note or a retrigger) restarts the attack.
    pub fn gate_on(self) -> (s: EnvStage)
        ensures
            s == EnvStage::Attack,
    {
        EnvStage::Attack
    }

    /// Gate off: a sounding envelope moves to release; an idle one stays idle.
    pub fn gate_off(self) -> (s: EnvStage)
        ensures
            s == stage_after_gate_off(self),
    {
        if self != EnvStage::Idle {
            EnvStage::Release
        } else {
            EnvStage::Idle
        }
    }

    /// Whether the envelope is sounding (any stage but `Idle`).
    pub fn is_active(self) -> (b: bool)
        ensures
            b == (self != EnvStage::Idle),
    {
        self != EnvStage::Idle
    }

    /// Advance one sample; `reached` tells whether the segment being run
    /// (attack to peak, decay to sustain, release to silence) arrived.
    pub fn advance(self, reached: bool) -> (s: EnvStage)
        ensures
            s == stage_after(self, reached),
    {
        match self {
            EnvStage::Attack => if reached { EnvStage::Decay } else { EnvStage::Attack },
            EnvStage::Decay => if reached { EnvStage::Sustain } else { EnvStage::Decay },
            EnvStage::Release => if reached { EnvStage::Idle } else { EnvStage::Release },
            EnvStage::Idle => EnvStage::Idle,
            EnvStage::Sustain => EnvStage::Sustain,
        }
    }
}

/// An idle envelope stays idle, whatever its segments report, until it is
/// gated on: running it any number of samples, or gating it off, leaves it idle.
pub proof fn lemma_idle_stays_idle(reached: Seq<bool>)
    ensures
        stage_after_run(EnvStage::Idle, reached) == EnvStage::Idle,
        stage_after_gate_off(EnvStage::Idle) == EnvStage::Idle,
    decreases reached.len(),
{
    if reached.len() > 0 {
        lemma_idle_stays_idle(reached.drop_first());
    }
}

/// Once gated off, an envelope only winds down: however many samples run,
/// it is releasing or idle, never back in attack, decay or sustain.
pub proof fn lemma_release_only_winds_down(stage: EnvStage, reached: Seq<bool>)
    ensures
        is_winding_down(stage_after_run(stage_after_gate_off(stage), reached)),
{
    lemma_winding_down_is_closed(stage_after_gate_off(stage), reached);
}

proof fn lemma_winding_down_is_closed(stage: EnvStage, reached: Seq<bool>)
    requires
        is_winding_down(stage),
    ensures
        is_winding_down(stage_after_run(stage, reached)),
    decreases reached.len(),
{
    if reached.len() > 0 {
        lemma_winding_down_is_closed(stage_after(stage, reached[0]), reached.drop_first());
    }
}

/// A segment that has not reached its target keeps its stage: on such a
/// sample every stage stays as it is (decay keeps running until the level
/// reaches sustain, release until it reaches silence, attack until the peak).
/// A segment that has reached its target moves attack to decay, decay to
/// sustain and release to idle; sustain and idle have no target and never
/// move on their own.
pub proof fn lemma_stage_moves_only_when_reached(s: EnvStage)
    ensures
        stage_after(s, false) == s,
        (stage_after(s, true) != s) <==> (s == EnvStage::Attack || s == EnvStage::Decay || s == EnvStage::Release),
        s == EnvStage::Attack ==> stage_after(s, true) == EnvStage::Decay,
        s == EnvStage::Decay ==> stage_after(s, true) == EnvStage::Sustain,
        s == EnvStage::Release ==> stage_after(s, true) == EnvStage::Idle,
{
}

/// Running the envelope never enters the attack stage: only gating on does.
pub proof fn lemma_attack_only_from_gate_on(stage: EnvStage, reached: bool)
    ensures
        stage_after(stage, reached) == EnvStage::Attack ==> stage == EnvStage::Attack,
        stage_after_gate_off(stage) != EnvStage::Attack,
{
}

} // verus!
