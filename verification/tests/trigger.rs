use ranch_dsp::trigger::{Cooldown, OnsetGate};

#[test]
fn cooldown_spaces_firings() {
    let mut c = Cooldown::new();
    assert!(c.ready());
    c.arm(3);
    let mut ready = Vec::new();
    for _ in 0..5 {
        c.tick();
        ready.push(c.ready());
    }
    assert_eq!(ready, vec![false, false, true, true, true]);
    c.arm(10);
    c.clear();
    assert!(c.ready());
}

#[test]
fn onset_gate_needs_to_rearm() {
    let mut g = OnsetGate::new();
    assert!(g.step(true, false));
    // still above the high threshold: no second onset
    assert!(!g.step(true, false));
    assert!(!g.step(false, false));
    // falls below the low threshold: re-armed, the next rise fires
    assert!(!g.step(false, true));
    assert!(g.step(true, false));
    g.rearm();
    assert!(g.step(true, false));
}

#[test]
fn gated_steps_fire_at_most_once_per_refractory() {
    let mut c = Cooldown::new();
    let mut fired = Vec::new();
    for _ in 0..10 {
        fired.push(c.step(true, 4));
    }
    assert_eq!(
        fired,
        vec![true, false, false, false, true, false, false, false, true, false]
    );
    // nothing asked, nothing fired, but the cooldown still runs down
    let mut d = Cooldown::new();
    assert!(!d.step(false, 4));
    assert!(d.step(true, 4));
    assert!(!d.step(false, 4));
    assert!(!d.step(false, 4));
    assert!(!d.step(false, 4));
    assert!(d.step(true, 4));
}
