use ranch_dsp::params::{BotanicaParam, PhasePlanParam};

#[test]
fn phaseplan_ids_follow_the_abi_table() {
    assert_eq!(PhasePlanParam::from_id(0), Some(PhasePlanParam::WtPosA));
    assert_eq!(PhasePlanParam::from_id(9), Some(PhasePlanParam::FilterMode));
    assert_eq!(PhasePlanParam::from_id(21), Some(PhasePlanParam::Lfo1Wave));
    assert_eq!(PhasePlanParam::from_id(32), Some(PhasePlanParam::Master));
    assert_eq!(PhasePlanParam::from_id(33), None);
    for id in 0..33 {
        assert_eq!(PhasePlanParam::from_id(id).unwrap().id(), id);
    }
}

#[test]
fn botanica_ids_follow_the_abi_table() {
    assert_eq!(BotanicaParam::from_id(0), Some(BotanicaParam::Blend));
    assert_eq!(BotanicaParam::from_id(6), Some(BotanicaParam::Freeze));
    assert_eq!(BotanicaParam::from_id(16), Some(BotanicaParam::FreezeSpray));
    assert_eq!(BotanicaParam::from_id(17), Some(BotanicaParam::StringsLevel));
    assert_eq!(BotanicaParam::from_id(20), Some(BotanicaParam::StringsTone));
    assert_eq!(BotanicaParam::from_id(21), None);
    for id in 0..21 {
        assert_eq!(BotanicaParam::from_id(id).unwrap().id(), id);
    }
}
