//! Stable numeric parameter ids for the instruments' host bridge.
//!
//! The web audio worklet sets parameters by `u32` id; these tables decode an
//! id into the parameter it names. Unknown ids name nothing and are ignored.

use vstd::prelude::*;

verus! {

/// A Botanica parameter addressable by id.
#[derive(Clone, Copy, Debug, PartialEq, Eq, Structural)]
pub enum BotanicaParam {
    Blend,
    Intensity,
    Bloom,
    Motion,
    XyX,
    XyY,
    Freeze,
    RetuneSemis,
    CharacterQ,
    FilterLfoRate,
    XyMacroMix,
    Resonance,
    ResonanceTilt,
    ArpAmount,
    ArpDensity,
    FreezeSize,
    FreezeSpray,
    StringsLevel,
    StringsAir,
    StringsDensity,
    StringsTone,
}

/// The stable id of each parameter.
pub open spec fn botanica_param_id(p: BotanicaParam) -> u32 {
    match p {
        BotanicaParam::Blend => 0,
        BotanicaParam::Intensity => 1,
        BotanicaParam::Bloom => 2,
        BotanicaParam::Motion => 3,
        BotanicaParam::XyX => 4,
        BotanicaParam::XyY => 5,
        BotanicaParam::Freeze => 6,
        BotanicaParam::RetuneSemis => 7,
        BotanicaParam::CharacterQ => 8,
        BotanicaParam::FilterLfoRate => 9,
        BotanicaParam::XyMacroMix => 10,
        BotanicaParam::Resonance => 11,
        BotanicaParam::ResonanceTilt => 12,
        BotanicaParam::ArpAmount => 13,
        BotanicaParam::ArpDensity => 14,
        BotanicaParam::FreezeSize => 15,
        BotanicaParam::FreezeSpray => 16,
        BotanicaParam::StringsLevel => 17,
        BotanicaParam::StringsAir => 18,
        BotanicaParam::StringsDensity => 19,
        BotanicaParam::StringsTone => 20,
    }
}

impl BotanicaParam {
    /// The parameter with id `id`; `None` for an unknown id (ignored by the host bridge).
    pub fn from_id(id: u32) -> (r: Option<BotanicaParam>)
        ensures
            r matches Some(p) ==> botanica_param_id(p) == id,
            r is None <==> id >= 21,
    {
        match id {
            0 => Some(BotanicaParam::Blend),
            1 => Some(BotanicaParam::Intensity),
            2 => Some(BotanicaParam::Bloom),
            3 => Some(BotanicaParam::Motion),
            4 => Some(BotanicaParam::XyX),
            5 => Some(BotanicaParam::XyY),
            6 => Some(BotanicaParam::Freeze),
            7 => Some(BotanicaParam::RetuneSemis),
            8 => Some(BotanicaParam::CharacterQ),
            9 => Some(BotanicaParam::FilterLfoRate),
            10 => Some(BotanicaParam::XyMacroMix),
            11 => Some(BotanicaParam::Resonance),
            12 => Some(BotanicaParam::ResonanceTilt),
            13 => Some(BotanicaParam::ArpAmount),
            14 => Some(BotanicaParam::ArpDensity),
            15 => Some(BotanicaParam::FreezeSize),
            16 => Some(BotanicaParam::FreezeSpray),
            17 => Some(BotanicaParam::StringsLevel),
            18 => Some(BotanicaParam::StringsAir),
            19 => Some(BotanicaParam::StringsDensity),
            20 => Some(BotanicaParam::StringsTone),
            _ => None,
        }
    }

    /// This parameter's stable id.
    pub fn id(self) -> (i: u32)
        ensures
            i == botanica_param_id(self),
            i < 21,
    {
        match self {
            BotanicaParam::Blend => 0,
            BotanicaParam::Intensity => 1,
            BotanicaParam::Bloom => 2,
            BotanicaParam::Motion => 3,
            BotanicaParam::XyX => 4,
            BotanicaParam::XyY => 5,
            BotanicaParam::Freeze => 6,
            BotanicaParam::RetuneSemis => 7,
            BotanicaParam::CharacterQ => 8,
            BotanicaParam::FilterLfoRate => 9,
            BotanicaParam::XyMacroMix => 10,
            BotanicaParam::Resonance => 11,
            BotanicaParam::ResonanceTilt => 12,
            BotanicaParam::ArpAmount => 13,
            BotanicaParam::ArpDensity => 14,
            BotanicaParam::FreezeSize => 15,
            BotanicaParam::FreezeSpray => 16,
            BotanicaParam::StringsLevel => 17,
            BotanicaParam::StringsAir => 18,
            BotanicaParam::StringsDensity => 19,
            BotanicaParam::StringsTone => 20,
        }
    }
}

/// Ids are stable and one-to-one: each parameter has its own id below
/// 21, so `from_id`
/// of a parameter's id gives that parameter back.
pub proof fn lemma_botanica_param_id_round_trip(p: BotanicaParam, q: BotanicaParam)
    ensures
        botanica_param_id(p) < 21,
        botanica_param_id(p) == botanica_param_id(q) ==> p == q,
{
}

/// The id table is the host bridge's: blend 0, intensity 1, bloom 2,
/// motion 3, the XY puck 4 and 5, freeze 6, retune 7, character Q 8, filter
/// LFO rate 9, XY macro mix 10, resonance 11 and its tilt 12, the arp 13 and
/// 14, the freeze size 15 and spray 16, and the string bed's level, air,
/// density and tone 17 to 20.
pub proof fn lemma_botanica_ids_match_abi()
    ensures
        botanica_param_id(BotanicaParam::Blend) == 0,
        botanica_param_id(BotanicaParam::Intensity) == 1,
        botanica_param_id(BotanicaParam::Bloom) == 2,
        botanica_param_id(BotanicaParam::Motion) == 3,
        botanica_param_id(BotanicaParam::XyX) == 4,
        botanica_param_id(BotanicaParam::XyY) == 5,
        botanica_param_id(BotanicaParam::Freeze) == 6,
        botanica_param_id(BotanicaParam::RetuneSemis) == 7,
        botanica_param_id(BotanicaParam::CharacterQ) == 8,
        botanica_param_id(BotanicaParam::FilterLfoRate) == 9,
        botanica_param_id(BotanicaParam::XyMacroMix) == 10,
        botanica_param_id(BotanicaParam::Resonance) == 11,
        botanica_param_id(BotanicaParam::ResonanceTilt) == 12,
        botanica_param_id(BotanicaParam::ArpAmount) == 13,
        botanica_param_id(BotanicaParam::ArpDensity) == 14,
        botanica_param_id(BotanicaParam::FreezeSize) == 15,
        botanica_param_id(BotanicaParam::FreezeSpray) == 16,
        botanica_param_id(BotanicaParam::StringsLevel) == 17,
        botanica_param_id(BotanicaParam::StringsAir) == 18,
        botanica_param_id(BotanicaParam::StringsDensity) == 19,
        botanica_param_id(BotanicaParam::StringsTone) == 20,
{
}

/// A PhasePlan parameter addressable by id.
#[derive(Clone, Copy, Debug, PartialEq, Eq, Structural)]
pub enum PhasePlanParam {
    WtPosA,
    WtPosB,
    CoarseB,
    DetuneCents,
    OscMix,
    SubLevel,
    NoiseLevel,
    Cutoff,
    Resonance,
    FilterMode,
    FilterKbd,
    FilterEnv,
    AmpA,
    AmpD,
    AmpS,
    AmpR,
    ModA,
    ModD,
    ModS,
    ModR,
    Lfo1Rate,
    Lfo1Wave,
    Lfo2Rate,
    Lfo2Wave,
    Glide,
    Drive,
    Chorus,
    DelayTime,
    DelayFeedback,
    DelayMix,
    Reverb,
    ReverbSize,
    Master,
}

/// The stable id of each parameter.
pub open spec fn phaseplan_param_id(p: PhasePlanParam) -> u32 {
    match p {
        PhasePlanParam::WtPosA => 0,
        PhasePlanParam::WtPosB => 1,
        PhasePlanParam::CoarseB => 2,
        PhasePlanParam::DetuneCents => 3,
        PhasePlanParam::OscMix => 4,
        PhasePlanParam::SubLevel => 5,
        PhasePlanParam::NoiseLevel => 6,
        PhasePlanParam::Cutoff => 7,
        PhasePlanParam::Resonance => 8,
        PhasePlanParam::FilterMode => 9,
        PhasePlanParam::FilterKbd => 10,
        PhasePlanParam::FilterEnv => 11,
        PhasePlanParam::AmpA => 12,
        PhasePlanParam::AmpD => 13,
        PhasePlanParam::AmpS => 14,
        PhasePlanParam::AmpR => 15,
        PhasePlanParam::ModA => 16,
        PhasePlanParam::ModD => 17,
        PhasePlanParam::ModS => 18,
        PhasePlanParam::ModR => 19,
        PhasePlanParam::Lfo1Rate => 20,
        PhasePlanParam::Lfo1Wave => 21,
        PhasePlanParam::Lfo2Rate => 22,
        PhasePlanParam::Lfo2Wave => 23,
        PhasePlanParam::Glide => 24,
        PhasePlanParam::Drive => 25,
        PhasePlanParam::Chorus => 26,
        PhasePlanParam::DelayTime => 27,
        PhasePlanParam::DelayFeedback => 28,
        PhasePlanParam::DelayMix => 29,
        PhasePlanParam::Reverb => 30,
        PhasePlanParam::ReverbSize => 31,
        PhasePlanParam::Master => 32,
    }
}

impl PhasePlanParam {
    /// The parameter with id `id`; `None` for an unknown id (ignored by the host bridge).
    pub fn from_id(id: u32) -> (r: Option<PhasePlanParam>)
        ensures
            r matches Some(p) ==> phaseplan_param_id(p) == id,
            r is None <==> id >= 33,
    {
        match id {
            0 => Some(PhasePlanParam::WtPosA),
            1 => Some(PhasePlanParam::WtPosB),
            2 => Some(PhasePlanParam::CoarseB),
            3 => Some(PhasePlanParam::DetuneCents),
            4 => Some(PhasePlanParam::OscMix),
            5 => Some(PhasePlanParam::SubLevel),
            6 => Some(PhasePlanParam::NoiseLevel),
            7 => Some(PhasePlanParam::Cutoff),
            8 => Some(PhasePlanParam::Resonance),
            9 => Some(PhasePlanParam::FilterMode),
            10 => Some(PhasePlanParam::FilterKbd),
            11 => Some(PhasePlanParam::FilterEnv),
            12 => Some(PhasePlanParam::AmpA),
            13 => Some(PhasePlanParam::AmpD),
            14 => Some(PhasePlanParam::AmpS),
            15 => Some(PhasePlanParam::AmpR),
            16 => Some(PhasePlanParam::ModA),
            17 => Some(PhasePlanParam::ModD),
            18 => Some(PhasePlanParam::ModS),
            19 => Some(PhasePlanParam::ModR),
            20 => Some(PhasePlanParam::Lfo1Rate),
            21 => Some(PhasePlanParam::Lfo1Wave),
            22 => Some(PhasePlanParam::Lfo2Rate),
            23 => Some(PhasePlanParam::Lfo2Wave),
            24 => Some(PhasePlanParam::Glide),
            25 => Some(PhasePlanParam::Drive),
            26 => Some(PhasePlanParam::Chorus),
            27 => Some(PhasePlanParam::DelayTime),
            28 => Some(PhasePlanParam::DelayFeedback),
            29 => Some(PhasePlanParam::DelayMix),
            30 => Some(PhasePlanParam::Reverb),
            31 => Some(PhasePlanParam::ReverbSize),
            32 => Some(PhasePlanParam::Master),
            _ => None,
        }
    }

    /// This parameter's stable id.
    pub fn id(self) -> (i: u32)
        ensures
            i == phaseplan_param_id(self),
            i < 33,
    {
        match self {
            PhasePlanParam::WtPosA => 0,
            PhasePlanParam::WtPosB => 1,
            PhasePlanParam::CoarseB => 2,
            PhasePlanParam::DetuneCents => 3,
            PhasePlanParam::OscMix => 4,
            PhasePlanParam::SubLevel => 5,
            PhasePlanParam::NoiseLevel => 6,
            PhasePlanParam::Cutoff => 7,
            PhasePlanParam::Resonance => 8,
            PhasePlanParam::FilterMode => 9,
            PhasePlanParam::FilterKbd => 10,
            PhasePlanParam::FilterEnv => 11,
            PhasePlanParam::AmpA => 12,
            PhasePlanParam::AmpD => 13,
            PhasePlanParam::AmpS => 14,
            PhasePlanParam::AmpR => 15,
            PhasePlanParam::ModA => 16,
            PhasePlanParam::ModD => 17,
            PhasePlanParam::ModS => 18,
            PhasePlanParam::ModR => 19,
            PhasePlanParam::Lfo1Rate => 20,
            PhasePlanParam::Lfo1Wave => 21,
            PhasePlanParam::Lfo2Rate => 22,
            PhasePlanParam::Lfo2Wave => 23,
            PhasePlanParam::Glide => 24,
            PhasePlanParam::Drive => 25,
            PhasePlanParam::Chorus => 26,
            PhasePlanParam::DelayTime => 27,
            PhasePlanParam::DelayFeedback => 28,
            PhasePlanParam::DelayMix => 29,
            PhasePlanParam::Reverb => 30,
            PhasePlanParam::ReverbSize => 31,
            PhasePlanParam::Master => 32,
        }
    }
}

/// Ids are stable and one-to-one: each parameter has its own id below
/// 33, so `from_id`
/// of a parameter's id gives that parameter back.
pub proof fn lemma_phaseplan_param_id_round_trip(p: PhasePlanParam, q: PhasePlanParam)
    ensures
        phaseplan_param_id(p) < 33,
        phaseplan_param_id(p) == phaseplan_param_id(q) ==> p == q,
{
}

/// The id table is the host bridge's: the oscillator section 0 to 6
/// (wavetable positions, coarse tune, detune, mix, sub, noise), the filter 7
/// to 11 (cutoff, resonance, mode, key tracking, envelope amount), the amp
/// envelope 12 to 15 (attack, decay, sustain, release), the mod envelope 16 to
/// 19 in the same order, the LFOs and glide 20 to 24, and the effects rack and
/// master 25 to 32 (drive, chorus, delay time, feedback and mix, reverb and
/// its size, master).
pub proof fn lemma_phaseplan_ids_match_abi()
    ensures
        phaseplan_param_id(PhasePlanParam::WtPosA) == 0,
        phaseplan_param_id(PhasePlanParam::WtPosB) == 1,
        phaseplan_param_id(PhasePlanParam::CoarseB) == 2,
        phaseplan_param_id(PhasePlanParam::DetuneCents) == 3,
        phaseplan_param_id(PhasePlanParam::OscMix) == 4,
        phaseplan_param_id(PhasePlanParam::SubLevel) == 5,
        phaseplan_param_id(PhasePlanParam::NoiseLevel) == 6,
        phaseplan_param_id(PhasePlanParam::Cutoff) == 7,
        phaseplan_param_id(PhasePlanParam::Resonance) == 8,
        phaseplan_param_id(PhasePlanParam::FilterMode) == 9,
        phaseplan_param_id(PhasePlanParam::FilterKbd) == 10,
        phaseplan_param_id(PhasePlanParam::FilterEnv) == 11,
        phaseplan_param_id(PhasePlanParam::AmpA) == 12,
        phaseplan_param_id(PhasePlanParam::AmpD) == 13,
        phaseplan_param_id(PhasePlanParam::AmpS) == 14,
        phaseplan_param_id(PhasePlanParam::AmpR) == 15,
        phaseplan_param_id(PhasePlanParam::ModA) == 16,
        phaseplan_param_id(PhasePlanParam::ModD) == 17,
        phaseplan_param_id(PhasePlanParam::ModS) == 18,
        phaseplan_param_id(PhasePlanParam::ModR) == 19,
        phaseplan_param_id(PhasePlanParam::Lfo1Rate) == 20,
        phaseplan_param_id(PhasePlanParam::Lfo1Wave) == 21,
        phaseplan_param_id(PhasePlanParam::Lfo2Rate) == 22,
        phaseplan_param_id(PhasePlanParam::Lfo2Wave) == 23,
        phaseplan_param_id(PhasePlanParam::Glide) == 24,
        phaseplan_param_id(PhasePlanParam::Drive) == 25,
        phaseplan_param_id(PhasePlanParam::Chorus) == 26,
        phaseplan_param_id(PhasePlanParam::DelayTime) == 27,
        phaseplan_param_id(PhasePlanParam::DelayFeedback) == 28,
        phaseplan_param_id(PhasePlanParam::DelayMix) == 29,
        phaseplan_param_id(PhasePlanParam::Reverb) == 30,
        phaseplan_param_id(PhasePlanParam::ReverbSize) == 31,
        phaseplan_param_id(PhasePlanParam::Master) == 32,
{
}

} // verus!
