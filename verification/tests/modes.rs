use ranch_dsp::characters::{character_favor, character_name, CHARACTER_COUNT};
use ranch_dsp::modes::{svf_mode_from_code, waveform_from_code, FilterKind, SvfMode, Waveform};

#[test]
fn filter_kinds_map_to_svf_modes() {
    assert_eq!(FilterKind::Lowpass.mode(), SvfMode::Lowpass);
    assert_eq!(FilterKind::Bandpass.mode(), SvfMode::Bandpass);
    assert_eq!(FilterKind::Notch.mode(), SvfMode::Notch);
}

#[test]
fn parameter_codes_select_waveforms_and_modes() {
    assert_eq!(waveform_from_code(0), Waveform::Sine);
    assert_eq!(waveform_from_code(1), Waveform::Saw);
    assert_eq!(waveform_from_code(2), Waveform::Square);
    assert_eq!(waveform_from_code(3), Waveform::Triangle);
    assert_eq!(waveform_from_code(7), Waveform::Sine);
    assert_eq!(waveform_from_code(-1), Waveform::Sine);
    assert_eq!(svf_mode_from_code(0), SvfMode::Lowpass);
    assert_eq!(svf_mode_from_code(1), SvfMode::Highpass);
    assert_eq!(svf_mode_from_code(2), SvfMode::Bandpass);
    assert_eq!(svf_mode_from_code(3), SvfMode::Notch);
    assert_eq!(svf_mode_from_code(4), SvfMode::Lowpass);
}

#[test]
fn all_five_characters_are_named() {
    let names: Vec<&str> = (0..CHARACTER_COUNT).map(character_name).collect();
    assert_eq!(
        names,
        vec!["Glass Orchid", "Moss Cathedral", "Pollen Spark", "Root Murmur", "Aurora Silk"]
    );
    let mut sorted = names.clone();
    sorted.sort();
    sorted.dedup();
    assert_eq!(sorted.len(), 5);
    assert_eq!(character_favor(0), FilterKind::Lowpass);
    assert_eq!(character_favor(1), FilterKind::Bandpass);
    assert_eq!(character_favor(2), FilterKind::Notch);
    assert_eq!(character_favor(3), FilterKind::Lowpass);
    assert_eq!(character_favor(4), FilterKind::Bandpass);
}
