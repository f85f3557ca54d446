use ranch_dsp::pool::{spawn_count, voice_limit, SlotPool, ARP_MAX_VOICES, MAX_GRAINS, PER_TICK, STRING_MAX_VOICES};

#[test]
fn pool_is_hard_capped() {
    let mut c = SlotPool::new(MAX_GRAINS);
    let mut ok = 0;
    for _ in 0..(MAX_GRAINS + 8) {
        if c.claim(MAX_GRAINS, 0).is_some() {
            ok += 1;
        }
    }
    assert_eq!(ok, MAX_GRAINS, "pool exceeded its hard cap");
    assert_eq!(c.count_active(), MAX_GRAINS);
}

#[test]
fn claims_take_the_first_free_slot() {
    let mut p = SlotPool::new(4);
    assert_eq!(p.claim(4, 7), Some(0));
    assert_eq!(p.claim(4, 8), Some(1));
    assert_eq!(p.claim(4, 9), Some(2));
    p.release(1);
    assert!(!p.is_active(1));
    assert_eq!(p.claim(4, 10), Some(1));
    assert_eq!(p.stamp(1), 10);
    assert_eq!(p.count_active(), 3);
    assert_eq!(p.first_free(3), None);
    assert_eq!(p.first_free(4), Some(3));
}

#[test]
fn voices_steal_the_oldest_when_full() {
    let mut p = SlotPool::new(STRING_MAX_VOICES);
    let cap = 3;
    assert_eq!(p.claim_or_steal_oldest(cap, 5), 0);
    assert_eq!(p.claim_or_steal_oldest(cap, 2), 1);
    assert_eq!(p.claim_or_steal_oldest(cap, 9), 2);
    // all three below the cap are busy: the one stamped 2 is the oldest
    assert_eq!(p.claim_or_steal_oldest(cap, 11), 1);
    assert_eq!(p.stamp(1), 11);
    assert_eq!(p.count_active(), 3);
    assert_eq!(p.oldest(cap), 0);
    // equal stamps: the first one is stolen
    let mut q = SlotPool::new(3);
    for _ in 0..3 {
        q.claim_or_steal_oldest(3, 4);
    }
    assert_eq!(q.claim_or_steal_oldest(3, 4), 0);
}

#[test]
fn string_pool_respects_voice_cap() {
    let mut p = SlotPool::new(STRING_MAX_VOICES);
    let cap = voice_limit(6, STRING_MAX_VOICES);
    for stamp in 0..100u64 {
        p.claim_or_steal_oldest(cap, stamp);
        assert!(p.count_active() <= 6, "exceeded cap: {}", p.count_active());
    }
    for i in cap..STRING_MAX_VOICES {
        assert!(!p.is_active(i));
    }
}

#[test]
fn release_all_frees_every_slot() {
    let mut p = SlotPool::new(ARP_MAX_VOICES);
    for _ in 0..5 {
        p.claim(ARP_MAX_VOICES, 1);
    }
    p.release_all();
    assert_eq!(p.count_active(), 0);
    assert_eq!(p.capacity(), ARP_MAX_VOICES);
}

#[test]
fn voice_limits_and_spawn_counts() {
    assert_eq!(voice_limit(0, ARP_MAX_VOICES), 1);
    assert_eq!(voice_limit(6, ARP_MAX_VOICES), 6);
    assert_eq!(voice_limit(99, ARP_MAX_VOICES), 16);
    assert_eq!(voice_limit(99, STRING_MAX_VOICES), 12);
    assert_eq!(spawn_count(1), 1);
    assert_eq!(spawn_count(2), 2);
    assert_eq!(spawn_count(6), PER_TICK);
    assert_eq!(PER_TICK, 3);
}

#[test]
fn arp_pool_never_exceeds_voice_cap() {
    // the arp's policy: a free voice below its limit, or else the quietest
    // (smallest stamp, the first of equals); stamps are envelope bits that
    // decay every sample, and a voice is released once it has died away
    let limit = voice_limit(4, ARP_MAX_VOICES);
    let mut p = SlotPool::new(ARP_MAX_VOICES);
    let mut env = [0.0f32; ARP_MAX_VOICES];
    for sample in 0..48_000usize {
        if sample % 50 == 0 {
            for _ in 0..spawn_count(limit) {
                let i = p.free_or_oldest(limit);
                env[i] = 1.0f32.min(env[i].max(0.0) + 1.0);
                p.activate(i, env[i].to_bits() as u64);
            }
        }
        for i in 0..ARP_MAX_VOICES {
            if !p.is_active(i) {
                continue;
            }
            env[i] *= 0.999;
            p.set_stamp(i, env[i].to_bits() as u64);
            if env[i] < 1e-4 {
                p.release(i);
            }
        }
        let active = p.count_active();
        assert!(active <= 4, "exceeded voice cap: {active}");
    }
}

#[test]
fn arp_steals_the_quietest_voice() {
    let mut p = SlotPool::new(ARP_MAX_VOICES);
    assert_eq!(p.free_or_oldest(3), 0);
    let levels = [0.5f32, 0.1, 0.9];
    for (i, l) in levels.iter().enumerate() {
        p.activate(i, l.to_bits() as u64);
    }
    // every voice below the limit sounds: the quietest is taken
    assert_eq!(p.free_or_oldest(3), 1);
    // a free voice is preferred to any steal
    assert_eq!(p.free_or_oldest(4), 3);
    // re-stamping changes the choice but not which voices sound
    p.set_stamp(0, 0.01f32.to_bits() as u64);
    assert!(p.is_active(0));
    assert_eq!(p.count_active(), 3);
    assert_eq!(p.free_or_oldest(3), 0);
    // equal levels: the first is taken
    p.set_stamp(1, 0.01f32.to_bits() as u64);
    assert_eq!(p.free_or_oldest(3), 0);
    assert_eq!(p.stamp(1), 0.01f32.to_bits() as u64);
}
