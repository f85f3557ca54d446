use ranch_dsp::noise::{upper_half, Lcg, Noise, DRAW_RANGE};

#[test]
fn noise_seed_is_forced_odd() {
    let mut n = Noise::new(0);
    // state 1 → one xorshift32 step
    assert_eq!(n.next_u32(), 270_369);
    assert_eq!(n.next_u32(), 67_634_689);
    let mut m = Noise::new(0x9E37_79B9);
    assert_eq!(m.next_u32(), 1_359_758_873);
}

#[test]
fn noise_never_hits_zero() {
    let mut n = Noise::new(0x1234_5678);
    for _ in 0..100_000 {
        assert_ne!(n.next_u32(), 0);
    }
}

#[test]
fn lcg_steps_and_draws_top_bits() {
    let mut g = Lcg::new(0x9E37_79B9);
    let d = g.next_draw();
    assert_eq!(g.state(), 1_120_982_980);
    assert_eq!(d, 2_189_419);
    let d2 = g.next_draw();
    assert_eq!(g.state(), 3_911_581_779);
    assert_eq!(d2, 7_639_808);
    let mut h = Lcg::new(0x2545_F491);
    h.next_draw();
    assert_eq!(h.state(), 3_801_556_156);
}

#[test]
fn lcg_draws_stay_in_range_and_are_deterministic() {
    let mut a = Lcg::new(42);
    let mut b = Lcg::new(42);
    for _ in 0..10_000 {
        let x = a.next_draw();
        assert!(x < DRAW_RANGE);
        assert_eq!(x, b.next_draw());
    }
}

#[test]
fn coin_splits_the_draw_range() {
    assert!(!upper_half(0));
    assert!(!upper_half(DRAW_RANGE / 2 - 1));
    assert!(upper_half(DRAW_RANGE / 2));
    assert!(upper_half(DRAW_RANGE - 1));
}
