//! The PhasePlan voice's modulation layout.
//!
//! The voice feeds six sources into the matrix and reads seven targets back;
//! routes address them by these indices.

use vstd::prelude::*;

verus! {

pub const SRC_LFO1: usize = 0;
pub const SRC_LFO2: usize = 1;
pub const SRC_MOD_ENV: usize = 2;
pub const SRC_AMP_ENV: usize = 3;
pub const SRC_VELOCITY: usize = 4;
pub const SRC_KEY: usize = 5;
/// Number of modulation sources a voice provides.
pub const N_SOURCES: usize = 6;

/// Pitch offset, in semitones.
pub const TGT_PITCH: usize = 0;
/// Cutoff offset, in octaves.
pub const TGT_CUTOFF: usize = 1;
/// Oscillator A wavetable morph offset.
pub const TGT_WT_A: usize = 2;
/// Oscillator B wavetable morph offset.
pub const TGT_WT_B: usize = 3;
/// Linear gain offset around unity.
pub const TGT_AMP: usize = 4;
/// Resonance offset.
pub const TGT_RESONANCE: usize = 5;
/// A↔B oscillator mix offset.
pub const TGT_OSC_MIX: usize = 6;
/// Number of modulation targets a voice reads.
pub const N_TARGETS: usize = 7;

} // verus!
