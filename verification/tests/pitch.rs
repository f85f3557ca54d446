use ranch_dsp::pitch::{
    chord_interval, chord_note_count, effective_key_mask, octave_lift, quantize, triad_third,
    CHROMATIC_MASK, DEFAULT_KEY_MASK,
};

fn in_key(mask: u16, s: i32) -> bool {
    let n = s.rem_euclid(12) as u16;
    mask & (1 << n) != 0
}

#[test]
fn arp_roam_stays_in_key() {
    // every quantised offset must land on an allowed key-mask degree
    for s in -7..=7 {
        let q = quantize(s, DEFAULT_KEY_MASK).unwrap();
        assert!(in_key(DEFAULT_KEY_MASK, q), "quantised {s} -> {q} off-key");
    }
}

#[test]
fn quantize_keeps_in_key_offsets() {
    // degrees 0, 2, 4, 6, 7, 9, 11 are in the default key
    for s in [0, 2, 4, 6, 7, 9, 11, 12, -1, -3] {
        assert_eq!(quantize(s, DEFAULT_KEY_MASK), Some(s));
    }
}

#[test]
fn quantize_moves_to_the_nearest_degree_preferring_up() {
    // 1 sits between 0 and 2: equally near, the upper one wins
    assert_eq!(quantize(1, DEFAULT_KEY_MASK), Some(2));
    assert_eq!(quantize(-7, DEFAULT_KEY_MASK), Some(-6));
    // only pitch class 0 allowed: 5 goes down to 0, 7 goes up to 12, 6 ties and goes up
    assert_eq!(quantize(5, 0b1), Some(0));
    assert_eq!(quantize(7, 0b1), Some(12));
    assert_eq!(quantize(6, 0b1), Some(12));
    assert_eq!(quantize(-5, 0b1), Some(0));
}

#[test]
fn quantize_with_no_pitch_class_finds_nothing() {
    assert_eq!(quantize(3, 0), None);
    assert_eq!(quantize(3, 0xF000), None);
    assert_eq!(quantize(3, effective_key_mask(0)), Some(3));
}

#[test]
fn empty_key_mask_means_chromatic() {
    assert_eq!(effective_key_mask(0), CHROMATIC_MASK);
    assert_eq!(effective_key_mask(0b101), 0b101);
    assert_eq!(effective_key_mask(DEFAULT_KEY_MASK), DEFAULT_KEY_MASK);
}

#[test]
fn minor_third_interval_below_major() {
    assert_eq!(triad_third(true), 3);
    assert_eq!(triad_third(false), 4);
    assert!(chord_interval(true, 1) < chord_interval(false, 1));
    let major: Vec<i32> = (0..4).map(|k| chord_interval(false, k)).collect();
    let minor: Vec<i32> = (0..4).map(|k| chord_interval(true, k)).collect();
    assert_eq!(major, vec![0, 4, 7, 12]);
    assert_eq!(minor, vec![0, 3, 7, 12]);
}

#[test]
fn chords_have_two_or_three_notes_and_octaves_lift_by_twelve() {
    assert_eq!(chord_note_count(false), 2);
    assert_eq!(chord_note_count(true), 3);
    assert_eq!(octave_lift(false), 0);
    assert_eq!(octave_lift(true), 12);
}

#[test]
fn quantize_moves_at_most_half_an_octave() {
    for mask in [0b1u16, 0b100_0000, DEFAULT_KEY_MASK, 0x800] {
        for s in -30..30 {
            let q = quantize(s, mask).unwrap();
            assert!((q - s).abs() <= 6, "{s} -> {q} with mask {mask:#x}");
            assert!(in_key(mask, q));
        }
    }
}
