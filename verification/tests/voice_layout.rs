use ranch_dsp::voice::{
    N_SOURCES, N_TARGETS, SRC_AMP_ENV, SRC_KEY, SRC_LFO1, SRC_LFO2, SRC_MOD_ENV, SRC_VELOCITY,
    TGT_AMP, TGT_CUTOFF, TGT_OSC_MIX, TGT_PITCH, TGT_RESONANCE, TGT_WT_A, TGT_WT_B,
};

#[test]
fn matrix_indices_are_in_range() {
    // guard against an index drift between the consts and the arrays
    for s in [
        SRC_LFO1,
        SRC_LFO2,
        SRC_MOD_ENV,
        SRC_AMP_ENV,
        SRC_VELOCITY,
        SRC_KEY,
    ] {
        assert!(s < N_SOURCES);
    }
    for t in [
        TGT_PITCH,
        TGT_CUTOFF,
        TGT_WT_A,
        TGT_WT_B,
        TGT_AMP,
        TGT_RESONANCE,
        TGT_OSC_MIX,
    ] {
        assert!(t < N_TARGETS);
    }
}

#[test]
fn layout_indices_match_the_abi_reference() {
    assert_eq!(
        [SRC_LFO1, SRC_LFO2, SRC_MOD_ENV, SRC_AMP_ENV, SRC_VELOCITY, SRC_KEY],
        [0, 1, 2, 3, 4, 5]
    );
    assert_eq!(
        [TGT_PITCH, TGT_CUTOFF, TGT_WT_A, TGT_WT_B, TGT_AMP, TGT_RESONANCE, TGT_OSC_MIX],
        [0, 1, 2, 3, 4, 5, 6]
    );
}
