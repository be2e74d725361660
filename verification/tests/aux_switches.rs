use ap_copter::aux::{
    arming_check_throttle, auto_trim_cancel, auto_trim_step, default_dead_zones, do_aux_function,
    do_aux_function_change_air_mode, do_aux_function_change_mode, do_aux_function_option,
    eeprom_simple_mode, flight_mode_channel, get_arming_channel, get_control_mid,
    get_throttle_mid, has_valid_input, init_aux_function, init_aux_kind, init_rc_in_map,
    mode_switch_changed, save_trim, AcroTrainer, AirMode, ArmingChannel, AutoTrimCancelReason,
    AutoTrimStep, AuxDispatch, AuxLeftover, AuxSwitchPos, ControlType, CopterAuxFunc,
    CopterRcChannel, InitAuxKind, ModeSwitchLeftover, RcChannel, SimpleMode, SurfaceTracking,
    ZigzagSaveWp, MODE_FLIP, MODE_RTL, MODE_ZIGZAG,
};

fn dispatch(func: CopterAuxFunc, pos: AuxSwitchPos, current_mode: u8) -> AuxLeftover {
    do_aux_function(AuxDispatch { func, pos, current_mode, acro_air_mode_hook: true })
}

#[test]
fn option_numbers_round_trip() {
    for value in 0u16..=300 {
        if let Some(func) = CopterAuxFunc::from_option(value) {
            assert_eq!(func.option(), value);
        }
    }
    assert_eq!(CopterAuxFunc::from_option(4), Some(CopterAuxFunc::Rtl));
    assert_eq!(CopterAuxFunc::from_option(220), Some(CopterAuxFunc::TransmitterTuning2));
    assert_eq!(CopterAuxFunc::from_option(6), None);
    assert_eq!(CopterAuxFunc::Flip.change_mode_number(), None);
    assert_eq!(CopterAuxFunc::Loiter.change_mode_number(), Some(5));
}

#[test]
fn mode_switch_high_enters_and_release_only_resets_own_mode() {
    assert_eq!(
        dispatch(CopterAuxFunc::Rtl, AuxSwitchPos::High, 0),
        AuxLeftover::SetMode { mode: MODE_RTL }
    );
    assert_eq!(dispatch(CopterAuxFunc::Rtl, AuxSwitchPos::Low, MODE_RTL), AuxLeftover::ResetModeSwitch);
    assert_eq!(dispatch(CopterAuxFunc::Rtl, AuxSwitchPos::Middle, 0), AuxLeftover::Nothing);
    assert_eq!(do_aux_function_change_mode(9, AuxSwitchPos::Middle, 9), AuxLeftover::ResetModeSwitch);
}

#[test]
fn flip_release_does_not_reset_mode_switch() {
    assert_eq!(
        dispatch(CopterAuxFunc::Flip, AuxSwitchPos::High, 0),
        AuxLeftover::SetMode { mode: MODE_FLIP }
    );
    assert_eq!(dispatch(CopterAuxFunc::Flip, AuxSwitchPos::Low, MODE_FLIP), AuxLeftover::Nothing);
}

#[test]
fn simple_and_super_simple_maps_differ_only_on_high() {
    assert_eq!(
        dispatch(CopterAuxFunc::SimpleMode, AuxSwitchPos::Middle, 0),
        AuxLeftover::SetSimpleMode(SimpleMode::Simple)
    );
    assert_eq!(
        dispatch(CopterAuxFunc::SimpleMode, AuxSwitchPos::High, 0),
        AuxLeftover::SetSimpleMode(SimpleMode::Simple)
    );
    assert_eq!(
        dispatch(CopterAuxFunc::SuperSimpleMode, AuxSwitchPos::High, 0),
        AuxLeftover::SetSimpleMode(SimpleMode::SuperSimple)
    );
    assert_eq!(
        dispatch(CopterAuxFunc::SuperSimpleMode, AuxSwitchPos::Low, 0),
        AuxLeftover::SetSimpleMode(SimpleMode::Off)
    );
}

#[test]
fn three_position_options() {
    assert_eq!(
        dispatch(CopterAuxFunc::AcroTrainer, AuxSwitchPos::Middle, 0),
        AuxLeftover::SetAcroTrainer(AcroTrainer::Leveling)
    );
    assert_eq!(
        dispatch(CopterAuxFunc::SurfaceTracking, AuxSwitchPos::Low, 0),
        AuxLeftover::SetSurfaceTracking(SurfaceTracking::Ground)
    );
    assert_eq!(
        dispatch(CopterAuxFunc::MotorInterlock, AuxSwitchPos::Middle, 0),
        AuxLeftover::SetMotorInterlock(true)
    );
    assert_eq!(do_aux_function_change_air_mode(AuxSwitchPos::Middle), None);
    assert_eq!(
        dispatch(CopterAuxFunc::AirMode, AuxSwitchPos::High, 0),
        AuxLeftover::SetAirMode { air_mode: AirMode::Enabled, notify_acro: true }
    );
    assert_eq!(dispatch(CopterAuxFunc::PrecisionLoiter, AuxSwitchPos::Middle, 0), AuxLeftover::Nothing);
}

#[test]
fn zigzag_switches_only_act_in_zigzag() {
    assert_eq!(dispatch(CopterAuxFunc::ZigzagSaveWp, AuxSwitchPos::Low, 0), AuxLeftover::Nothing);
    assert_eq!(
        dispatch(CopterAuxFunc::ZigzagSaveWp, AuxSwitchPos::Low, MODE_ZIGZAG),
        AuxLeftover::ZigzagSaveWp(ZigzagSaveWp::DestinationA)
    );
}

#[test]
fn unknown_option_goes_to_base() {
    assert_eq!(do_aux_function_option(1, AuxSwitchPos::High, 0, false), AuxLeftover::DelegateToBase);
    assert_eq!(
        do_aux_function_option(48, AuxSwitchPos::Middle, 0, false),
        AuxLeftover::CallUserFunc { which: 2, pos: AuxSwitchPos::Middle }
    );
}

#[test]
fn boot_never_fires_mode_changes() {
    assert_eq!(init_aux_kind(CopterAuxFunc::Rtl, true), InitAuxKind::NoInit);
    assert_eq!(init_aux_kind(CopterAuxFunc::AirMode, true), InitAuxKind::RunNow);
    assert_eq!(init_aux_kind(CopterAuxFunc::AirMode, false), InitAuxKind::DelegateToBase);
    let d = AuxDispatch {
        func: CopterAuxFunc::Land,
        pos: AuxSwitchPos::High,
        current_mode: 0,
        acro_air_mode_hook: false,
    };
    assert_eq!(init_aux_function(d, true), AuxLeftover::Nothing);
    let d = AuxDispatch { func: CopterAuxFunc::Standby, ..d };
    assert_eq!(init_aux_function(d, true), AuxLeftover::SetStandby(true));
}

#[test]
fn valid_input_needs_no_failsafe_and_no_countdown() {
    assert!(has_valid_input(false, 0, true));
    assert!(!has_valid_input(false, 1, true));
    assert!(!has_valid_input(true, 0, true));
    assert!(!arming_check_throttle(1, true));
    assert!(arming_check_throttle(2, true));
    assert_eq!(get_arming_channel(), ArmingChannel::Yaw);
}

#[test]
fn mode_switch_uses_stored_simple_bits() {
    assert_eq!(eeprom_simple_mode(2, 0b100, 0b100), SimpleMode::SuperSimple);
    assert_eq!(eeprom_simple_mode(1, 0b100, 0b010), SimpleMode::Simple);
    assert_eq!(mode_switch_changed(-1, 6, 5, false, false, 0, 0), ModeSwitchLeftover::Invalid);
    assert_eq!(mode_switch_changed(7, 6, 5, false, false, 0, 0), ModeSwitchLeftover::Invalid);
    assert_eq!(
        mode_switch_changed(2, 6, 5, false, false, 0, 0b100),
        ModeSwitchLeftover::Engage { mode: 5, simple: Some(SimpleMode::Simple) }
    );
    assert_eq!(
        mode_switch_changed(2, 6, 5, true, false, 0, 0b100),
        ModeSwitchLeftover::Engage { mode: 5, simple: None }
    );
}

#[test]
fn flight_mode_channel_rejects_zero_and_sixteen() {
    assert_eq!(flight_mode_channel(5), Some(4));
    assert_eq!(flight_mode_channel(0), None);
    assert_eq!(flight_mode_channel(16), None);
    assert_eq!(flight_mode_channel(15), Some(14));
}

#[test]
fn stick_setup_and_dead_zones() {
    assert_eq!(default_dead_zones(false), (20, 20, 30, 20));
    assert_eq!(default_dead_zones(true), (20, 20, 10, 15));
    let map = init_rc_in_map(false);
    assert_eq!(map.throttle.type_in, ControlType::Range);
    assert_eq!(map.throttle.high_in, 1000);
    assert_eq!(map.throttle.cal.deadzone, 30);
    assert_eq!(map.roll.high_in, 4500);
}

#[test]
fn control_mid_truncates() {
    let throttle = CopterRcChannel::range(1000, 30);
    assert_eq!(get_control_mid(&throttle), 480);
    let roll = CopterRcChannel::angle(4500, 20);
    assert_eq!(get_control_mid(&roll), 0);
    assert_eq!(get_throttle_mid(&throttle, Some(600)), 600);
    assert_eq!(get_throttle_mid(&throttle, None), 480);
    let empty = CopterRcChannel {
        cal: RcChannel { radio_min: 1000, radio_trim: 1500, radio_max: 1000, deadzone: 0, reversed: false },
        type_in: ControlType::Range,
        high_in: 1000,
    };
    assert_eq!(get_control_mid(&empty), 0);
    let inverted = CopterRcChannel {
        cal: RcChannel { radio_min: 1900, radio_trim: 1500, radio_max: 1100, deadzone: 0, reversed: false },
        type_in: ControlType::Range,
        high_in: 1000,
    };
    // (1500 - 1900) * 1000 / (1100 - 1900) = 500
    assert_eq!(get_control_mid(&inverted), 500);
}

#[test]
fn trim_saving_and_auto_trim() {
    let s = save_trim(true);
    assert!(!s.need_pilot_lean && s.persist && !s.auto_trim_running);
    assert!(save_trim(false).need_pilot_lean);
    assert!(!auto_trim_cancel().persist);
    assert_eq!(auto_trim_step(false, true, false), AutoTrimStep::Idle);
    assert_eq!(
        auto_trim_step(true, false, false),
        AutoTrimStep::Cancel { reason: AutoTrimCancelReason::ModeDisallows }
    );
    assert_eq!(
        auto_trim_step(true, true, true),
        AutoTrimStep::Cancel { reason: AutoTrimCancelReason::LandCompleteMaybe }
    );
    assert_eq!(auto_trim_step(true, true, false), AutoTrimStep::Apply);
}
