use ap_copter::arming::{
    arm_checks, arm_entry, disarm_guard, gps_hdop_check, interlock_checks, parameter_checks,
    rc_throttle_failsafe_check, terrain_database_required, ArmCheckRefusal, ArmCheckState,
    ArmEntry, ArmRefusal, ArmingMethod, DisarmRefusal, InterlockSwitches, ParameterRefusal,
    ParameterState, PositionRefusal, RcFailsafeState, TerrainSource,
};

fn rc() -> RcFailsafeState {
    RcFailsafeState {
        rc_check_enabled: true,
        failsafe_throttle: 1,
        has_had_rc_receiver: true,
        has_had_rc_override: false,
        throttle_radio_in: 1100,
        failsafe_throttle_value: 975,
    }
}

#[test]
fn throttle_failsafe_check_order() {
    assert_eq!(rc_throttle_failsafe_check(&rc()), None);
    let silent = RcFailsafeState { has_had_rc_receiver: false, throttle_radio_in: 0, ..rc() };
    assert_eq!(rc_throttle_failsafe_check(&silent), Some(ArmRefusal::RcNotFound));
    let override_only = RcFailsafeState { has_had_rc_override: true, ..silent };
    assert_eq!(
        rc_throttle_failsafe_check(&override_only),
        Some(ArmRefusal::ThrottleBelowFailsafe)
    );
    let off = RcFailsafeState { failsafe_throttle: 0, ..silent };
    assert_eq!(rc_throttle_failsafe_check(&off), None);
    assert_eq!(ArmRefusal::ThrottleBelowFailsafe.message(), "Throttle below failsafe");
}

#[test]
fn both_interlock_problems_are_reported() {
    let r = interlock_checks(&InterlockSwitches {
        motor_interlock_assigned: true,
        motor_estop_assigned: true,
        arm_emergency_stop_assigned: false,
        using_interlock: true,
        motor_interlock_switch: true,
    });
    assert_eq!(r, [Some(ArmRefusal::InterlockEstopConflict), Some(ArmRefusal::MotorInterlockEnabled)]);
}

fn params() -> ParameterState {
    ParameterState {
        parameter_check_enabled: true,
        failsafe_throttle: 1,
        throttle_radio_min: 1100,
        failsafe_throttle_value: 975,
        failsafe_gcs: 0,
        acro_balance_out_of_range: false,
        pilot_speed_up_positive: true,
        frame_class_is_heli: false,
        rtl_alt_type_is_terrain: false,
        terrain_source: TerrainSource::Unavailable,
        rangefinder_available: false,
        rtl_alt_above_rangefinder_max: false,
        adsb_failsafe: false,
        pos_control_ok: true,
        attitude_control_ok: true,
    }
}

#[test]
fn parameter_checks_fill_two_slots_at_most() {
    assert_eq!(parameter_checks(&params()), [None, None]);
    let close = ParameterState { throttle_radio_min: 985, ..params() };
    assert_eq!(parameter_checks(&close), [Some(ParameterRefusal::CheckFsThrValue), None]);
    let floor = ParameterState { failsafe_throttle_value: 905, ..params() };
    assert_eq!(parameter_checks(&floor), [Some(ParameterRefusal::CheckFsThrValue), None]);
    let warn = ParameterState { failsafe_gcs: 2, frame_class_is_heli: true, ..params() };
    let r = parameter_checks(&warn);
    assert_eq!(
        r,
        [Some(ParameterRefusal::FsGcsEnable2Removed), Some(ParameterRefusal::InvalidMulticopterFrameClass)]
    );
    assert!(!ParameterRefusal::FsGcsEnable2Removed.blocks_arming());
    let terrain = ParameterState { rtl_alt_type_is_terrain: true, ..params() };
    assert_eq!(parameter_checks(&terrain), [Some(ParameterRefusal::RtlTerrainNoData), None]);
    let disabled = ParameterState { parameter_check_enabled: false, ..close };
    assert_eq!(parameter_checks(&disabled), [None, None]);
}

fn arm_state() -> ArmCheckState {
    ArmCheckState {
        ahrs_healthy: true,
        using_noncompass_for_yaw: false,
        compass_healthy: true,
        mode_allows_arming: true,
        skip_all_checks: false,
        ins_check_enabled: true,
        leaning_past_max: false,
        parameter_check_enabled: true,
        adsb_failsafe: false,
        rc_check_enabled: true,
        method: ArmingMethod::Pilot,
        mode_allows_gcs_arming_with_throttle_high: true,
        pilot_climb_rate_positive: false,
        manual_throttle_mode: true,
        throttle_control_in_positive: false,
        safety_switch_disarmed: false,
    }
}

#[test]
fn arm_checks_skip_all_keeps_the_top_three() {
    assert_eq!(arm_checks(&arm_state()), None);
    let sick = ArmCheckState { ahrs_healthy: false, skip_all_checks: true, ..arm_state() };
    assert_eq!(arm_checks(&sick), Some(ArmCheckRefusal::AhrsNotHealthy));
    let leaning = ArmCheckState { leaning_past_max: true, skip_all_checks: true, ..arm_state() };
    assert_eq!(arm_checks(&leaning), None);
    let throttle = ArmCheckState { throttle_control_in_positive: true, ..arm_state() };
    assert_eq!(arm_checks(&throttle), Some(ArmCheckRefusal::ThrottleTooHigh));
    let gcs = ArmCheckState { method: ArmingMethod::GroundStation, ..throttle };
    assert_eq!(arm_checks(&gcs), None);
}

#[test]
fn disarm_and_arm_guards() {
    assert_eq!(
        disarm_guard(true, true, ArmingMethod::GroundStation, false, false),
        Some(DisarmRefusal::FlyingViaGroundStation)
    );
    assert_eq!(
        disarm_guard(true, false, ArmingMethod::Pilot, false, false),
        Some(DisarmRefusal::FlyingViaRudder)
    );
    assert_eq!(disarm_guard(true, true, ArmingMethod::GroundStation, true, false), None);
    assert_eq!(arm_entry(true, true), ArmEntry::Reentrant);
    assert_eq!(arm_entry(false, true), ArmEntry::AlreadyArmed);
    assert_eq!(arm_entry(false, false), ArmEntry::Proceed);
}

#[test]
fn hdop_and_terrain_requirements() {
    assert_eq!(gps_hdop_check(1, 250, 140), Some(PositionRefusal::HighGpsHdop));
    assert_eq!(gps_hdop_check(0, 250, 140), None);
    assert!(!terrain_database_required(TerrainSource::Rangefinder, true, true));
    assert!(terrain_database_required(TerrainSource::Database, true, false));
    assert!(!terrain_database_required(TerrainSource::Database, false, false));
}
