use ap_copter::altitude::{alt_above_ground_source, AltAboveGroundSource};
use ap_copter::ground::{
    ekf_reset_method, is_disarmed_or_landed, make_safe_ground_handling,
    smooth_throttle_transition_on_exit, zero_throttle_spool, EkfResetMethod,
};
use ap_copter::land::{land_descent_plan, LandDescentPlan};
use ap_copter::land_detector::{update_land_detector, LandDetectorInputs, WowState};
use ap_copter::land_horizontal::{
    land_cancel_destination, land_cancelled_by_throttle, land_horizontal_input,
    precision_landing_active, reposition_state, LandCancelDestination, LandHorizontalInput,
    RepositionState,
};
use ap_copter::land_precland::{
    doing_precision_landing, land_run_normal_or_precland, precland_descent_override,
    precland_retry_position, precland_run, precland_steps_machine, LandOrPrecland,
    PrecLandDescentOverride, PrecLandFailSafeAction, PrecLandFailsafe, PrecLandRetryView,
    PrecLandRunAction, PrecLandStatus, PrecLandUpdate,
};
use ap_copter::spool::{DesiredSpoolState, SpoolState};

#[test]
fn ground_handling() {
    assert!(is_disarmed_or_landed(true, false, false));
    assert!(!is_disarmed_or_landed(true, true, false));
    assert_eq!(zero_throttle_spool(true), DesiredSpoolState::ThrottleUnlimited);
    let g = make_safe_ground_handling(false, SpoolState::SpoolingUp);
    assert_eq!(g.desired_spool, DesiredSpoolState::GroundIdle);
    assert!(!g.reset_yaw_target_and_rate);
    assert!(make_safe_ground_handling(true, SpoolState::GroundIdle).reset_yaw_target_and_rate);
    assert!(smooth_throttle_transition_on_exit(true, false, true, false));
    assert!(!smooth_throttle_transition_on_exit(true, false, true, true));
    assert_eq!(ekf_reset_method(true), EkfResetMethod::MoveVehicle);
}

#[test]
fn land_detector_counts_a_second_then_lands() {
    let inp = LandDetectorInputs::default();
    let r = update_land_detector(&inp);
    assert!(!r.land_complete && r.count == 1 && !r.land_complete_maybe);
    let maybe = LandDetectorInputs { land_detector_count: 79, ..inp };
    let r = update_land_detector(&maybe);
    assert_eq!(r.count, 80);
    assert!(r.land_complete_maybe);
    let just_short = LandDetectorInputs { land_detector_count: 78, ..inp };
    assert!(!update_land_detector(&just_short).land_complete_maybe);
    let done = LandDetectorInputs { land_detector_count: 400, ..inp };
    let r = update_land_detector(&done);
    assert!(r.land_complete && r.count == 0 && r.land_complete_maybe);
    let airmode = LandDetectorInputs {
        land_detector_count: 400,
        has_manual_throttle: true,
        airmode_enabled: true,
        throttle_mix_at_min: false,
        ..inp
    };
    let r = update_land_detector(&airmode);
    assert!(!r.land_complete && r.count == 401);
}

#[test]
fn land_detector_resets_and_keeps() {
    let inp = LandDetectorInputs { land_detector_count: 300, ..LandDetectorInputs::default() };
    let moving = LandDetectorInputs { accel_stationary: false, ..inp };
    assert_eq!(update_land_detector(&moving).count, 0);
    let wheels_up = LandDetectorInputs { wow: WowState::NoWow, ..inp };
    assert_eq!(update_land_detector(&wheels_up).count, 0);
    let disarmed_down = LandDetectorInputs { armed: false, land_complete: true, ..inp };
    let r = update_land_detector(&disarmed_down);
    assert!(r.land_complete && r.count == 300);
    let disarmed_up = LandDetectorInputs { armed: false, ..inp };
    let r = update_land_detector(&disarmed_up);
    assert!(r.land_complete && r.count == 0);
    let takeoff = LandDetectorInputs {
        land_complete: true,
        throttle_above_non_takeoff: true,
        spool_state: SpoolState::ThrottleUnlimited,
        ..inp
    };
    let r = update_land_detector(&takeoff);
    assert!(!r.land_complete && r.unexpected_takeoff && r.count == 0);
    assert!(WowState::Wow.sensor_known() && WowState::Wow.check());
    assert!(!WowState::Unknown.sensor_known() && WowState::Unknown.check());
}

#[test]
fn pilot_during_landing() {
    assert!(land_cancelled_by_throttle(2, true, true));
    assert!(!land_cancelled_by_throttle(1, true, true));
    assert!(!land_cancelled_by_throttle(2, true, false));
    assert_eq!(land_cancel_destination(false), LandCancelDestination::AltHold);
    assert_eq!(reposition_state(true, true, false, false), RepositionState::PilotRepositioning);
    assert_eq!(reposition_state(true, true, true, false), RepositionState::Unchanged);
    assert_eq!(reposition_state(true, true, true, true), RepositionState::ReleasedToPrecland);
    assert!(!precision_landing_active(true, true));
    assert_eq!(land_horizontal_input(true), LandHorizontalInput::PrecisionTarget);
}

#[test]
fn height_source_and_descent_plan() {
    assert_eq!(alt_above_ground_source(true, false, true), AltAboveGroundSource::Rangefinder);
    assert_eq!(alt_above_ground_source(false, false, true), AltAboveGroundSource::Zero);
    assert_eq!(alt_above_ground_source(false, true, true), AltAboveGroundSource::Terrain);
    assert_eq!(alt_above_ground_source(false, true, false), AltAboveGroundSource::HomeAltitude);
    assert_eq!(land_descent_plan(true, true, true), LandDescentPlan::Paused);
    assert_eq!(
        land_descent_plan(false, false, true),
        LandDescentPlan::Descend { ignore_descent_limit: true }
    );
    assert_eq!(
        land_descent_plan(false, false, false),
        LandDescentPlan::Descend { ignore_descent_limit: false }
    );
}

#[test]
fn precision_landing_runner() {
    assert_eq!(land_run_normal_or_precland(true, true), LandOrPrecland::Normal { pause_descent: true });
    assert_eq!(land_run_normal_or_precland(false, true), LandOrPrecland::PrecLand);
    assert!(!precland_steps_machine(true));
    let update = PrecLandUpdate {
        status: PrecLandStatus::Failsafe,
        need_gcs_retrying: false,
        need_gcs_retry_completed: true,
    };
    let fs = PrecLandFailsafe { action: PrecLandFailSafeAction::HoldPos, need_gcs_failsafe: true };
    let r = precland_run(false, &update, &fs);
    assert_eq!(r.action, PrecLandRunAction::HorizAndVert { pause_descent: true });
    assert!(r.need_gcs_failsafe && r.need_gcs_retry_completed);
    let r = precland_run(true, &update, &fs);
    assert_eq!(r.action, PrecLandRunAction::HorizAndVert { pause_descent: false });
    assert!(!r.need_gcs_failsafe);
    let err = PrecLandUpdate { status: PrecLandStatus::Error, ..update };
    let r = precland_run(false, &err, &fs);
    assert!(r.need_internal_error);
    assert_eq!(r.action, PrecLandRunAction::HorizAndVert { pause_descent: false });
    let retry = PrecLandUpdate { status: PrecLandStatus::Retrying, ..update };
    assert_eq!(precland_run(false, &retry, &fs).action, PrecLandRunAction::RetryPosition);
}

#[test]
fn precision_landing_retry_and_override() {
    let view = PrecLandRetryView {
        has_valid_input: true,
        throttle_behavior: 0,
        throttle_above_cancel_trigger: true,
        land_repositioning: true,
        pilot_leaning: true,
        land_repo_active: false,
    };
    let r = precland_retry_position(&view);
    assert!(!r.cancel && r.land_repo_active && r.need_log_repo_active);
    let again = precland_retry_position(&PrecLandRetryView { land_repo_active: true, pilot_leaning: false, ..view });
    assert!(again.land_repo_active && !again.need_log_repo_active);
    let cancel = precland_retry_position(&PrecLandRetryView { throttle_behavior: 2, ..view });
    assert!(cancel.cancel && cancel.need_log_cancel);
    assert!(doing_precision_landing(false, true, true));
    assert!(!doing_precision_landing(false, true, false));
    assert_eq!(precland_descent_override(false, true, true, true, false), PrecLandDescentOverride::Hold);
    assert_eq!(precland_descent_override(false, true, false, true, false), PrecLandDescentOverride::Crawl);
    assert_eq!(precland_descent_override(false, true, false, true, true), PrecLandDescentOverride::Keep);
    assert_eq!(precland_descent_override(true, true, true, true, false), PrecLandDescentOverride::Keep);
}
