use ranch_dsp::envelope::EnvStage;

#[test]
fn stages_run_attack_decay_sustain_release_idle() {
    let mut s = EnvStage::Idle;
    assert!(!s.is_active());
    s = s.gate_on();
    assert_eq!(s, EnvStage::Attack);
    assert!(s.is_active());
    s = s.advance(false);
    assert_eq!(s, EnvStage::Attack);
    s = s.advance(true);
    assert_eq!(s, EnvStage::Decay);
    s = s.advance(true);
    assert_eq!(s, EnvStage::Sustain);
    s = s.advance(true);
    assert_eq!(s, EnvStage::Sustain);
    s = s.gate_off();
    assert_eq!(s, EnvStage::Release);
    s = s.advance(false);
    assert_eq!(s, EnvStage::Release);
    s = s.advance(true);
    assert_eq!(s, EnvStage::Idle);
    assert!(!s.is_active());
}

#[test]
fn idle_stays_idle_until_gated_on() {
    let s = EnvStage::Idle;
    assert_eq!(s.gate_off(), EnvStage::Idle);
    assert_eq!(s.advance(true), EnvStage::Idle);
    assert_eq!(s.advance(false), EnvStage::Idle);
}

#[test]
fn gate_on_retriggers_from_any_stage() {
    for s in [
        EnvStage::Idle,
        EnvStage::Attack,
        EnvStage::Decay,
        EnvStage::Sustain,
        EnvStage::Release,
    ] {
        assert_eq!(s.gate_on(), EnvStage::Attack);
    }
    for s in [EnvStage::Attack, EnvStage::Decay, EnvStage::Sustain, EnvStage::Release] {
        assert_eq!(s.gate_off(), EnvStage::Release);
    }
}
