use ap_copter::alt_hold::{AltHoldModeState, ClimbDemand};
use ap_copter::mode_acro::{
    acro_air_mode_aux_changed, acro_exit, acro_init, AcroAirMode, AirMode,
};
use ap_copter::mode_althold::{
    althold_init, althold_run, althold_state_actions, AltHoldRunView, AltHoldVertical,
};
use ap_copter::mode_brake::{
    brake_init, brake_mode_flags, brake_run, brake_timeout_elapsed, timeout_to_loiter_ms,
    BrakeRunView, BrakeTimeoutExit,
};
use ap_copter::mode_drift::{drift_init, drift_spool_reset};
use ap_copter::mode_entry::{mode_entry, FenceState, ModeEntry, ModeEntryRequest, ModeEntryVeto};
use ap_copter::spool::{DesiredSpoolState, RateIReset, SpoolState};

fn armed_request() -> ModeEntryRequest {
    ModeEntryRequest {
        target_is_current: false,
        target_is_auto_rtl: false,
        reason_is_gcs_command: false,
        gcs_entry_enabled: true,
        mode_exists: true,
        armed: true,
        land_complete: false,
        new_has_manual_throttle: false,
        new_is_drift: false,
        current_has_manual_throttle: false,
        pilot_throttle_above_non_takeoff: false,
        new_requires_position: false,
        position_ok: true,
        ekf_alt_ok: true,
        fence: FenceState {
            enabled: false,
            disable_mode_change: false,
            breached: false,
            entered_for_breach: false,
        },
        in_rc_failsafe: false,
        new_allows_entry_in_rc_failsafe: true,
        init_ok: true,
    }
}

#[test]
fn mode_entry_ladder_order() {
    let q = armed_request();
    assert_eq!(mode_entry(&q), ModeEntry::Entered);
    assert_eq!(mode_entry(&ModeEntryRequest { target_is_current: true, mode_exists: false, ..q }), ModeEntry::AlreadyInMode);
    let both = ModeEntryRequest { new_requires_position: true, position_ok: false, init_ok: false, ..q };
    assert_eq!(mode_entry(&both), ModeEntry::Refused(ModeEntryVeto::RequiresPosition));
    let throttle = ModeEntryRequest {
        land_complete: true,
        new_is_drift: true,
        pilot_throttle_above_non_takeoff: true,
        ..q
    };
    assert_eq!(mode_entry(&throttle), ModeEntry::Refused(ModeEntryVeto::ThrottleTooHigh));
    let bench = ModeEntryRequest { armed: false, new_requires_position: true, position_ok: false, ..q };
    assert_eq!(mode_entry(&bench), ModeEntry::Entered);
    let gcs = ModeEntryRequest { reason_is_gcs_command: true, gcs_entry_enabled: false, armed: false, ..q };
    assert_eq!(mode_entry(&gcs), ModeEntry::Refused(ModeEntryVeto::GcsEntryDisabled));
    let rc = ModeEntryRequest { in_rc_failsafe: true, new_allows_entry_in_rc_failsafe: false, armed: false, ..q };
    assert_eq!(mode_entry(&rc), ModeEntry::Refused(ModeEntryVeto::InRcFailsafe));
    let fence = ModeEntryRequest {
        fence: FenceState { enabled: true, disable_mode_change: true, breached: true, entered_for_breach: true },
        ..q
    };
    assert_eq!(mode_entry(&fence), ModeEntry::Refused(ModeEntryVeto::InFenceRecovery));
    let alt = ModeEntryRequest { ekf_alt_ok: false, current_has_manual_throttle: true, ..q };
    assert_eq!(mode_entry(&alt), ModeEntry::Refused(ModeEntryVeto::NeedAltEstimate));
    let auto_rtl = ModeEntryRequest { target_is_auto_rtl: true, ..q };
    assert_eq!(mode_entry(&auto_rtl), ModeEntry::DelegatedToAutoRtl);
}

#[test]
fn brake_timeout_fires_on_equality_and_never_on_ground() {
    assert!(!brake_timeout_elapsed(0, 0, 1_000_000));
    assert!(brake_timeout_elapsed(3000, 1000, 4000));
    assert!(!brake_timeout_elapsed(3000, 1000, 3999));
    assert!(brake_timeout_elapsed(3000, u32::MAX - 999, 2000));
    assert_eq!(timeout_to_loiter_ms(5000, 2500), (5000, 2500));
    let flying = BrakeRunView { timeout_ms: 3000, timeout_start_ms: 1000, now_ms: 4000, ..BrakeRunView::flying() };
    let r = brake_run(&flying);
    assert_eq!(r.timeout_exit, BrakeTimeoutExit::LoiterThenAltHold);
    assert_eq!(r.desired_spool, Some(DesiredSpoolState::ThrottleUnlimited));
    let ground = BrakeRunView { land_complete: true, ..flying };
    let r = brake_run(&ground);
    assert!(r.safe_ground && r.relax_d);
    assert_eq!(r.timeout_exit, BrakeTimeoutExit::Stay);
    assert_eq!(r.desired_spool, None);
    let init = brake_init(true, false);
    assert!(init.ok && !init.init_d && init.timeout_ms == 0);
    assert_eq!(brake_mode_flags().mode_number, 17);
}

#[test]
fn acro_air_mode_latch() {
    let mut s = AcroAirMode::fresh();
    assert!(acro_init(false, true, &mut s));
    assert_eq!(s.air_mode, AirMode::Enabled);
    acro_exit(true, &mut s);
    assert_eq!(s.air_mode, AirMode::Disabled);
    let mut s = AcroAirMode::fresh();
    acro_init(false, true, &mut s);
    acro_air_mode_aux_changed(&mut s);
    acro_exit(true, &mut s);
    assert_eq!(s.air_mode, AirMode::Enabled);
    assert!(!s.disable_air_mode_reset);
    let mut s = AcroAirMode::fresh();
    acro_init(false, false, &mut s);
    assert_eq!(s, AcroAirMode::fresh());
}

#[test]
fn althold_actions_per_state() {
    let a = althold_state_actions(AltHoldModeState::MotorStopped, false);
    assert_eq!(a.reset_rate_i, RateIReset::Hard);
    assert!(a.reset_yaw_target_and_rate && !a.reset_yaw_rate);
    let t = althold_state_actions(AltHoldModeState::Takeoff, false);
    assert!(t.start_takeoff);
    assert_eq!(t.vertical, AltHoldVertical::Takeoff);
    assert!(!althold_state_actions(AltHoldModeState::Takeoff, true).start_takeoff);
    assert!(althold_init(false, false).init_d_controller);
    let r = althold_run(&AltHoldRunView::flying());
    assert_eq!(r.state, AltHoldModeState::Flying);
    assert_eq!(r.actions.vertical, AltHoldVertical::ClimbRate);
    let disarmed = althold_run(&AltHoldRunView {
        armed: false,
        spool_state: SpoolState::ShutDown,
        ..AltHoldRunView::flying()
    });
    assert_eq!(disarmed.state, AltHoldModeState::MotorStopped);
    assert_eq!(disarmed.desired_spool, Some(DesiredSpoolState::ShutDown));
    let climb_off_ground = althold_run(&AltHoldRunView {
        land_complete: true,
        climb: ClimbDemand::Climb,
        ..AltHoldRunView::flying()
    });
    assert_eq!(climb_off_ground.state, AltHoldModeState::Takeoff);
}

#[test]
fn drift_spool_table() {
    assert!(drift_init(true).ok);
    let r = drift_spool_reset(SpoolState::ShutDown, false);
    assert_eq!(r.reset_rate_i, RateIReset::Hard);
    assert!(r.reset_yaw_target_and_rate && !r.reset_yaw_rate);
    assert!(drift_spool_reset(SpoolState::ThrottleUnlimited, false).clear_land_complete);
    assert!(!drift_spool_reset(SpoolState::ThrottleUnlimited, true).clear_land_complete);
    assert_eq!(drift_spool_reset(SpoolState::SpoolingUp, false).reset_rate_i, RateIReset::Keep);
}
