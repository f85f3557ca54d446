//! Waveforms, filter responses and the character filter kinds.

use vstd::prelude::*;

verus! {

/// Oscillator / LFO waveform.
#[derive(Clone, Copy, Debug, PartialEq, Eq, Structural)]
pub enum Waveform {
    Sine,
    Saw,
    Square,
    Triangle,
}

/// Response tapped from the state-variable filter.
#[derive(Clone, Copy, Debug, PartialEq, Eq, Structural)]
pub enum SvfMode {
    Lowpass,
    Highpass,
    Bandpass,
    Notch,
}

/// The filter response a voice character favours.
#[derive(Clone, Copy, Debug, PartialEq, Eq, Structural)]
pub enum FilterKind {
    Lowpass,
    Bandpass,
    Notch,
}

impl FilterKind {
    /// The state-variable-filter response that realises this kind.
    pub fn mode(self) -> (m: SvfMode)
        ensures
            self == FilterKind::Lowpass ==> m == SvfMode::Lowpass,
            self == FilterKind::Bandpass ==> m == SvfMode::Bandpass,
            self == FilterKind::Notch ==> m == SvfMode::Notch,
    {
        match self {
            FilterKind::Lowpass => SvfMode::Lowpass,
            FilterKind::Bandpass => SvfMode::Bandpass,
            FilterKind::Notch => SvfMode::Notch,
        }
    }
}

/// The waveform a numeric parameter code selects (1 saw, 2 square,
/// 3 triangle, anything else sine).
pub fn waveform_from_code(code: i32) -> (w: Waveform)
    ensures
        code == 1 ==> w == Waveform::Saw,
        code == 2 ==> w == Waveform::Square,
        code == 3 ==> w == Waveform::Triangle,
        (code < 1 || code > 3) ==> w == Waveform::Sine,
{
    match code {
        1 => Waveform::Saw,
        2 => Waveform::Square,
        3 => Waveform::Triangle,
        _ => Waveform::Sine,
    }
}

/// The filter response a numeric parameter code selects (1 high-pass,
/// 2 band-pass, 3 notch, anything else low-pass).
pub fn svf_mode_from_code(code: i32) -> (m: SvfMode)
    ensures
        code == 1 ==> m == SvfMode::Highpass,
        code == 2 ==> m == SvfMode::Bandpass,
        code == 3 ==> m == SvfMode::Notch,
        (code < 1 || code > 3) ==> m == SvfMode::Lowpass,
{
    match code {
        1 => SvfMode::Highpass,
        2 => SvfMode::Bandpass,
        3 => SvfMode::Notch,
        _ => SvfMode::Lowpass,
    }
}

} // verus!
