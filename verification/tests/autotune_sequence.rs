use ap_copter::alt_hold::{alt_hold_state, takeoff_triggered, AltHoldInputs, AltHoldModeState, ClimbDemand};
use ap_copter::attitude::{
    constrain_throttle_deadzone, update_throttle_hover, HoverLearnContext, HoverLearnSkip,
};
use ap_copter::autotune_gcs::{
    announce_percent, do_gcs_announcements, get_axis_name, get_tune_type_name, update_gcs,
    GcsAnnounceView,
};
use ap_copter::autotune_next::{
    autotune_advance, multi_tune_sequence, next_axis, next_tune_type, AdvanceView,
};
use ap_copter::mode_autotune::{
    first_enabled_axis, mode_autotune_init, AutoTuneInitFail, AutoTuneInitView, AxisType, GainType,
    TuneMode, TuneType, AUTOTUNE_MESSAGE_STARTED, AUTOTUNE_MESSAGE_SUCCESS, MODE_NUMBER_LOITER,
};
use ap_copter::spool::{DesiredSpoolState, SpoolState};

#[test]
fn tune_sequence_steps_and_saturates_at_complete() {
    let seq = multi_tune_sequence();
    assert_eq!(seq[0], TuneType::RateDUp);
    assert_eq!(seq[5], TuneType::TuneComplete);
    let n = next_tune_type(TuneType::RateDUp, false, 0);
    assert_eq!(n.tune_type, TuneType::RateDDown);
    assert_eq!(n.tune_seq_index, 1);
    let last = next_tune_type(TuneType::AnglePUp, false, 4);
    assert_eq!(last.tune_type, TuneType::TuneComplete);
    let stays = next_tune_type(TuneType::TuneComplete, false, 5);
    assert_eq!(stays.tune_seq_index, 5);
    let reset = next_tune_type(TuneType::AnglePDown, true, 3);
    assert!(reset.sequence_reset);
    assert_eq!(reset.tune_type, TuneType::RateDUp);
}

#[test]
fn axes_follow_in_order_and_finish() {
    let a = next_axis(AxisType::Roll, 7, 0);
    assert_eq!(a.axis, AxisType::Pitch);
    assert_eq!(a.axes_completed, 1);
    assert!(!a.complete);
    let skip = next_axis(AxisType::Roll, 0b0100, 0);
    assert_eq!(skip.axis, AxisType::Yaw);
    let done = next_axis(AxisType::Yaw, 7, 3);
    assert!(done.complete);
    assert_eq!(done.axes_completed, 7);
    assert_eq!(first_enabled_axis(0b1000), Some(AxisType::YawD));
    assert_eq!(first_enabled_axis(0), None);
}

#[test]
fn advance_finishes_on_the_last_axis() {
    let v = AdvanceView {
        tune_type: TuneType::AnglePUp,
        axis: AxisType::Yaw,
        axis_bitmask: 7,
        axes_completed: 3,
        tune_seq_index: 4,
        tune_type_complete: true,
    };
    let r = autotune_advance(&v);
    assert!(r.autotune_complete);
    assert!(r.backoff_applied);
    assert_eq!(r.mode, TuneMode::Finished);
    assert_eq!(r.loaded_gains, Some(GainType::Original));
    assert_eq!(r.gcs_message, Some(AUTOTUNE_MESSAGE_SUCCESS));
    let mid = autotune_advance(&AdvanceView { axis: AxisType::Roll, axes_completed: 0, ..v });
    assert!(!mid.autotune_complete && mid.next_axis);
    assert_eq!(mid.axis, AxisType::Pitch);
    let idle = autotune_advance(&AdvanceView { tune_type_complete: false, ..AdvanceView::typical() });
    assert_eq!(idle.tune_type, TuneType::RateDUp);
    assert_eq!(idle.success_counter, 0);
}

#[test]
fn init_refuses_in_gate_order_and_starts_fresh() {
    let ok = mode_autotune_init(false, &AutoTuneInitView::typical());
    assert!(ok.ok);
    assert_eq!(ok.axis, Some(AxisType::Roll));
    assert_eq!(ok.gcs_message, Some(AUTOTUNE_MESSAGE_STARTED));
    let loiter = mode_autotune_init(false, &AutoTuneInitView::typical_loiter());
    assert_eq!(loiter.use_poshold, Some(true));
    let ground = mode_autotune_init(
        false,
        &AutoTuneInitView { land_complete: true, ..AutoTuneInitView::typical() },
    );
    assert_eq!(ground.fail, Some(AutoTuneInitFail::NotFlying));
    let from = mode_autotune_init(
        false,
        &AutoTuneInitView { from_mode_number: 3, throttle_zero: true, ..AutoTuneInitView::typical() },
    );
    assert_eq!(from.fail, Some(AutoTuneInitFail::FromModeRefused));
    assert_eq!(MODE_NUMBER_LOITER, 5);
}

#[test]
fn gcs_messages_and_announcements() {
    assert_eq!(get_axis_name(AxisType::YawD), "Yaw(D)");
    assert_eq!(get_tune_type_name(TuneType::TuneCheck), "Check Tune Frequency Response");
    assert_eq!(announce_percent(3), 75);
    assert_eq!(announce_percent(-1), 0);
    assert_eq!(announce_percent(11), 255);
    assert!(update_gcs(7, 0).is_none());
    let started = update_gcs(AUTOTUNE_MESSAGE_STARTED, 0b0101).unwrap();
    assert!(started.roll && !started.pitch && started.yaw);
    let a = do_gcs_announcements(&GcsAnnounceView::typical());
    assert!(a.sent);
    assert_eq!(a.last_announce_ms, 10_000);
    let quiet = do_gcs_announcements(&GcsAnnounceView { last_announce_ms: 9_000, ..GcsAnnounceView::typical() });
    assert!(!quiet.sent);
    assert_eq!(quiet.last_announce_ms, 9_000);
}

fn flying() -> AltHoldInputs {
    AltHoldInputs {
        armed: true,
        spool_state: SpoolState::ThrottleUnlimited,
        takeoff_running: false,
        auto_armed: true,
        land_complete: false,
        using_interlock: false,
        climb: ClimbDemand::Hold,
    }
}

#[test]
fn alt_hold_state_machine() {
    assert_eq!(alt_hold_state(&flying()).state, AltHoldModeState::Flying);
    let disarmed = alt_hold_state(&AltHoldInputs { armed: false, spool_state: SpoolState::ShutDown, ..flying() });
    assert_eq!(disarmed.state, AltHoldModeState::MotorStopped);
    assert_eq!(disarmed.desired_spool, Some(DesiredSpoolState::ShutDown));
    let landed = AltHoldInputs { land_complete: true, ..flying() };
    assert!(!takeoff_triggered(true, ClimbDemand::Hold, SpoolState::ThrottleUnlimited));
    assert_eq!(alt_hold_state(&landed).state, AltHoldModeState::LandedPreTakeoff);
    let climbing = AltHoldInputs { climb: ClimbDemand::Climb, ..landed };
    let t = alt_hold_state(&climbing);
    assert_eq!(t.state, AltHoldModeState::Takeoff);
    assert_eq!(t.desired_spool, None);
    let descend = AltHoldInputs { climb: ClimbDemand::Descend, spool_state: SpoolState::GroundIdle, ..landed };
    let d = alt_hold_state(&descend);
    assert_eq!(d.state, AltHoldModeState::LandedGroundIdle);
    assert_eq!(d.desired_spool, Some(DesiredSpoolState::GroundIdle));
}

#[test]
fn hover_learning_gates_and_deadzone() {
    let ctx = HoverLearnContext {
        armed: true,
        land_complete: false,
        standby_active: false,
        has_manual_throttle: false,
        is_drift: false,
        vel_desired_u_zero: true,
        velocity_d_ok: true,
        level_hover: true,
        gyro_fft_enabled: true,
    };
    let r = update_throttle_hover(&ctx);
    assert!(r.learn && r.skip.is_none());
    let drift = update_throttle_hover(&HoverLearnContext { is_drift: true, ..ctx });
    assert_eq!(drift.skip, Some(HoverLearnSkip::Drift));
    assert!(!drift.need_vel_desired_u);
    let nov = update_throttle_hover(&HoverLearnContext { velocity_d_ok: false, ..ctx });
    assert_eq!(nov.skip, Some(HoverLearnSkip::NoVelocityD));
    assert_eq!(constrain_throttle_deadzone(-5), 0);
    assert_eq!(constrain_throttle_deadzone(500), 400);
    assert_eq!(constrain_throttle_deadzone(100), 100);
}
