use ap_copter::autotune_gcs::{do_gcs_announcements, report_final_gains, GcsAnnounceView};
use ap_copter::autotune_load_save::{
    autotune_disarmed, autotune_stop, backup_yaw_seeds, load_gains, load_gains_already,
    load_test_gains, load_tuned_gains, save_tuning_gains, DisarmAction, LoadView,
};
use ap_copter::autotune_next::{set_tuning_gains_with_backoff, BackoffPlan};
use ap_copter::autotune_poshold::poshold_latch;
use ap_copter::autotune_twitch::{
    autotune_test_run, twitch_step_timeout, twitching_abort_rate, AutoTuneTwitchView,
};
use ap_copter::autotune_update_gains::{
    rate_p_fail_min_d, update_gains_plan, update_gains_plan_counts_success, update_gains_settle, GainClamps, GainStep,
    TwitchComparison,
};
use ap_copter::mode_autotune::{
    AxisType, GainType, TuneMode, TuneType, TwitchTick, AUTOTUNE_MESSAGE_SAVED_GAINS,
    AUTOTUNE_MESSAGE_STOPPED, AUTOTUNE_SUCCESS_COUNT, AUTOTUNE_TESTING_STEP_TIMEOUT_MS,
};

fn quiet() -> TwitchComparison {
    TwitchComparison {
        rate_over_target: false,
        rate_under_target: false,
        rate_under_margin: false,
        rate_over_margin: false,
        rate_over_aggressive_target: false,
        bounce_over_aggressiveness: false,
        bounce_under_aggressiveness: false,
        rate_swung_back: false,
        angle_over_target: false,
        angle_over_aggressive_target: false,
        angle_under_aggressive_target: false,
        p_within_max: true,
        d_above_min: true,
    }
}

const NO_CLAMP: GainClamps = GainClamps { p_clamped: false, d_clamped: false };

#[test]
fn rate_d_up_counts_a_bounce_and_marks_the_next_twitch() {
    let c = TwitchComparison { bounce_over_aggressiveness: true, ..quiet() };
    let p = update_gains_plan(TuneType::RateDUp, AxisType::Roll, 1, false, &c);
    assert_eq!(p.step, GainStep::Hold);
    assert_eq!(p.success_counter, 2);
    assert!(p.ignore_next);
    let u = update_gains_settle(&p, NO_CLAMP);
    assert_eq!(u.success_counter, 2);
    assert!(!u.tune_type_complete);
    assert_eq!(u.mode, TuneMode::Tuning);
}

#[test]
fn rate_d_up_clean_twitch_raises_d_and_its_ceiling_completes() {
    let p = update_gains_plan(TuneType::RateDUp, AxisType::Roll, 2, false, &quiet());
    assert_eq!(p.step, GainStep::RaiseRateD);
    assert_eq!(p.success_counter, 1);
    let u = update_gains_settle(&p, GainClamps { p_clamped: false, d_clamped: true });
    assert_eq!(u.success_counter, AUTOTUNE_SUCCESS_COUNT as i8);
    assert!(u.reached_limit);
    assert!(u.tune_type_complete);
}

#[test]
fn ignored_twitch_only_clears_the_mark() {
    let p = update_gains_plan(TuneType::RatePUp, AxisType::Pitch, 3, true, &quiet());
    assert_eq!(p.step, GainStep::Hold);
    assert_eq!(p.success_counter, 3);
    assert!(!p.ignore_next);
}

#[test]
fn rate_overshoot_lowers_p_and_a_d_floor_completes_with_min_d_message() {
    let c = TwitchComparison { rate_over_target: true, ..quiet() };
    let p = update_gains_plan(TuneType::RateDDown, AxisType::Roll, 0, false, &c);
    assert_eq!(p.step, GainStep::LowerRatePThenD);
    let unclamped = update_gains_settle(&p, GainClamps { p_clamped: false, d_clamped: true });
    assert!(!unclamped.reached_limit);
    let u = update_gains_settle(&p, GainClamps { p_clamped: true, d_clamped: true });
    assert!(u.min_rate_d_limit);
    assert!(u.tune_type_complete);
    assert!(!u.failed);
}

#[test]
fn rate_p_up_backoff_at_the_floor_fails_except_yaw_d() {
    assert!(rate_p_fail_min_d(AxisType::Roll));
    assert!(!rate_p_fail_min_d(AxisType::Yaw));
    let c = TwitchComparison {
        rate_under_target: true,
        rate_over_margin: true,
        bounce_over_aggressiveness: true,
        ..quiet()
    };
    let roll = update_gains_plan(TuneType::RatePUp, AxisType::Roll, 2, false, &c);
    assert_eq!(roll.step, GainStep::LowerRateDAndP { fail_min_d: true });
    assert_eq!(roll.success_counter, 1);
    let u = update_gains_settle(&roll, GainClamps { p_clamped: false, d_clamped: true });
    assert!(u.failed && u.rate_d_failed && u.reached_limit);
    assert_eq!(u.mode, TuneMode::Failed);
    let yaw = update_gains_plan(TuneType::RatePUp, AxisType::Yaw, 2, false, &c);
    let y = update_gains_settle(&yaw, GainClamps { p_clamped: false, d_clamped: true });
    assert!(!y.failed && y.reached_limit);
    let p_floor = update_gains_settle(&yaw, GainClamps { p_clamped: true, d_clamped: false });
    assert!(p_floor.failed && p_floor.rate_p_failed);
}

#[test]
fn angle_p_down_floor_fails_and_angle_p_up_ceiling_completes() {
    let over = TwitchComparison { angle_under_aggressive_target: false, ..quiet() };
    let down = update_gains_plan(TuneType::AnglePDown, AxisType::Roll, 1, false, &over);
    assert_eq!(down.step, GainStep::LowerAngleP);
    assert!(down.ignore_next);
    let f = update_gains_settle(&down, GainClamps { p_clamped: true, d_clamped: false });
    assert!(f.angle_p_failed && f.failed);
    let up = update_gains_plan(TuneType::AnglePUp, AxisType::Roll, 1, false, &quiet());
    assert_eq!(up.step, GainStep::RaiseAngleP);
    assert_eq!(up.success_counter, 0);
    let c = update_gains_settle(&up, GainClamps { p_clamped: true, d_clamped: false });
    assert!(c.tune_type_complete && !c.failed);
    let swing = TwitchComparison { angle_over_target: true, rate_swung_back: true, ..quiet() };
    let counted = update_gains_plan(TuneType::AnglePUp, AxisType::Roll, 1, false, &swing);
    assert_eq!(counted.success_counter, 2);
}

#[test]
fn check_completes_and_heli_types_are_flow_errors() {
    let p = update_gains_plan(TuneType::TuneCheck, AxisType::Roll, 0, false, &quiet());
    assert!(update_gains_settle(&p, NO_CLAMP).tune_type_complete);
    let h = update_gains_plan(TuneType::MaxGains, AxisType::Roll, 1, true, &quiet());
    let u = update_gains_settle(&h, NO_CLAMP);
    assert!(u.flow_of_control);
    assert_eq!(u.success_counter, 1);
    assert!(u.ignore_next);
}

#[test]
fn backoff_scales_rate_p_and_d_but_not_yaw_d() {
    assert_eq!(
        set_tuning_gains_with_backoff(TuneType::RatePUp, AxisType::Roll),
        BackoffPlan::RateP { scale_d: true }
    );
    assert_eq!(
        set_tuning_gains_with_backoff(TuneType::RatePUp, AxisType::Yaw),
        BackoffPlan::RateP { scale_d: false }
    );
    assert_eq!(
        set_tuning_gains_with_backoff(TuneType::AnglePUp, AxisType::YawD),
        BackoffPlan::AngleP { roll_pitch: false }
    );
    assert_eq!(
        set_tuning_gains_with_backoff(TuneType::RateDDown, AxisType::Roll),
        BackoffPlan::Keep
    );
    assert_eq!(
        set_tuning_gains_with_backoff(TuneType::TuneCheck, AxisType::Roll),
        BackoffPlan::FlowOfControl
    );
}

#[test]
fn loads_skip_the_set_already_loaded() {
    let v = LoadView::typical();
    assert!(load_gains_already(GainType::Tuned, GainType::Tuned));
    let r = load_gains(GainType::Tuned, GainType::Tuned, &v);
    assert!(r.skipped);
    assert!(r.loaded.is_none());
    let o = load_gains(GainType::Tuned, GainType::Original, &v);
    assert!(!o.skipped);
    let g = o.loaded.unwrap();
    assert!(g.roll && g.pitch && g.yaw);
    assert_eq!(g.bf_feedforward, Some(true));
}

#[test]
fn tuned_gains_only_for_completed_axes() {
    let v = LoadView { axes_completed: 1, ..LoadView::typical() };
    let t = load_tuned_gains(&v);
    assert!(t.roll && !t.pitch && !t.yaw);
    let s = save_tuning_gains(&v);
    assert!(s.roll && !s.pitch && !s.yaw);
    assert_eq!(s.gcs_message, Some(AUTOTUNE_MESSAGE_SAVED_GAINS));
    assert!(s.reset);
    let none = save_tuning_gains(&LoadView { axes_completed: 0, ..LoadView::typical() });
    assert!(none.skipped && !none.reset && none.gcs_message.is_none());
    let ff_off = load_tuned_gains(&LoadView { live_bf_feedforward: false, ..LoadView::typical() });
    assert_eq!(ff_off.bf_feedforward, Some(true));
    assert!(ff_off.accel_roll_forced_zero && ff_off.accel_pitch_forced_zero);
}

#[test]
fn test_gains_touch_only_the_axis_under_test() {
    let t = load_test_gains(&LoadView { axis: AxisType::YawD, ..LoadView::typical() });
    assert!(!t.roll && !t.pitch && t.yaw);
    assert!(!t.use_sqrt_controller);
}

#[test]
fn stop_restores_original_and_disarm_decides_save() {
    let s = autotune_stop(GainType::Tuned, &LoadView::typical());
    assert_eq!(s.gcs_message, AUTOTUNE_MESSAGE_STOPPED);
    assert_eq!(s.load.gain_type, GainType::Original);
    assert!(!s.load.skipped);
    assert!(autotune_stop(GainType::Original, &LoadView::typical()).load.skipped);
    assert_eq!(autotune_disarmed(true, false, GainType::Original), DisarmAction::Save);
    assert_eq!(autotune_disarmed(false, true, GainType::Tuned), DisarmAction::Save);
    assert_eq!(autotune_disarmed(false, true, GainType::Original), DisarmAction::Reset);
    assert_eq!(autotune_disarmed(false, false, GainType::Tuned), DisarmAction::Reset);
}

#[test]
fn backup_seeds_zero_yaw_gains_of_enabled_axes() {
    let seeds = backup_yaw_seeds(0b1100, true, true);
    assert!(seeds.yaw_rd_seeded && seeds.yaw_rlpf_seeded);
    let default_mask = backup_yaw_seeds(0b0111, true, true);
    assert!(!default_mask.yaw_rd_seeded && default_mask.yaw_rlpf_seeded);
}

fn twitch(tune_type: TuneType) -> AutoTuneTwitchView {
    AutoTuneTwitchView {
        tune_type,
        angle_step_commanded: false,
        now_ms: 10_000,
        step_start_time_ms: 9_800,
        step_timeout_ms: AUTOTUNE_TESTING_STEP_TIMEOUT_MS,
        response_slow: false,
        peak_over_target: false,
        bounce_over_aggressiveness: false,
        lean_at_abort: false,
        abort_stalled: false,
        step_scaler_above_floor: true,
    }
}

#[test]
fn slow_twitch_stretches_its_timeout_to_three_times_elapsed() {
    let t = twitch_step_timeout(10_000, 9_800, 2000, true);
    assert_eq!(t.step_timeout_ms, 600);
    assert!(!t.timed_out);
    let capped = twitch_step_timeout(12_000, 9_000, 2000, true);
    assert_eq!(capped.step_timeout_ms, AUTOTUNE_TESTING_STEP_TIMEOUT_MS);
    assert!(capped.timed_out);
    let wrapped = twitch_step_timeout(100, u32::MAX - 99, 2000, true);
    assert_eq!(wrapped.step_timeout_ms, 600);
    let kept = twitch_step_timeout(10_000, 9_800, 2000, false);
    assert_eq!(kept.step_timeout_ms, 2000);
}

#[test]
fn twitch_commands_rate_step_or_angle_step_once() {
    let r = autotune_test_run(&twitch(TuneType::RateDUp));
    assert!(r.input_rate_step && !r.input_angle_step && !r.input_rate_hold);
    assert_eq!(r.tick, TwitchTick::Running);
    let a = autotune_test_run(&twitch(TuneType::AnglePUp));
    assert!(a.input_angle_step && a.angle_step_commanded);
    let held = autotune_test_run(&AutoTuneTwitchView {
        angle_step_commanded: true,
        ..twitch(TuneType::AnglePUp)
    });
    assert!(held.input_rate_hold && !held.input_angle_step);
    let heli = autotune_test_run(&twitch(TuneType::MaxGains));
    assert!(heli.flow_of_control && !heli.input_rate_step);
}

#[test]
fn twitch_overshoot_is_done_and_stall_aborts() {
    let done = autotune_test_run(&AutoTuneTwitchView {
        peak_over_target: true,
        ..twitch(TuneType::RatePUp)
    });
    assert_eq!(done.tick, TwitchTick::Done);
    let stall = autotune_test_run(&AutoTuneTwitchView {
        lean_at_abort: true,
        abort_stalled: true,
        ..twitch(TuneType::RateDDown)
    });
    assert_eq!(stall.tick, TwitchTick::Aborted);
    assert!(stall.shrink_step_scaler && !stall.failed);
    let floor = twitching_abort_rate(true, true, false);
    assert!(floor.failed && floor.reached_limit);
    assert_eq!(floor.tick, Some(TwitchTick::Aborted));
    assert_eq!(twitching_abort_rate(true, false, true).tick, Some(TwitchTick::Done));
    assert_eq!(twitching_abort_rate(false, true, true).tick, None);
}

#[test]
fn poshold_latches_the_first_good_fix() {
    let first = poshold_latch(true, true, false);
    assert!(first.active && first.latched_start && first.have_position);
    let second = poshold_latch(true, true, first.have_position);
    assert!(!second.latched_start);
    let off = poshold_latch(false, true, false);
    assert!(!off.active && !off.have_position);
}

#[test]
fn final_gains_report_names_the_axis() {
    let yaw = report_final_gains(AxisType::Yaw);
    assert_eq!(yaw.axis_string, "Yaw(E)");
    assert!(yaw.yaw_pi_ratio && !yaw.report_rate_d);
    let roll = report_final_gains(AxisType::Roll);
    assert_eq!(roll.axis_string, "Roll");
    assert!(!roll.yaw_pi_ratio && roll.report_rate_d);
}

#[test]
fn yaw_terms_written_follow_the_yaw_axes() {
    let tuned = load_tuned_gains(&LoadView::typical());
    assert!(tuned.yaw && !tuned.yaw_rd_written && tuned.yaw_filter_written);
    let yaw_d_mask = LoadView { axis_bitmask: 0b1011, axes_completed: 0b1000, ..LoadView::typical() };
    let d = load_tuned_gains(&yaw_d_mask);
    assert!(d.yaw && d.yaw_rd_written && !d.yaw_filter_written);
    let test_d = load_test_gains(&LoadView { axis: AxisType::YawD, ..LoadView::typical() });
    assert!(test_d.yaw_rd_written && !test_d.yaw_filter_written);
    let test_e = load_test_gains(&LoadView { axis: AxisType::Yaw, ..LoadView::typical() });
    assert!(test_e.yaw_rd_written && test_e.yaw_filter_written);
    let saved = save_tuning_gains(&yaw_d_mask);
    assert!(saved.yaw && saved.yaw_rd_written && !saved.yaw_filter_written);
}

#[test]
fn log_layout_follows_axis_and_tune_type() {
    let l = ap_copter::autotune_log::log_autotune(AxisType::Yaw, TuneType::AnglePUp);
    assert_eq!(l.axis, 2);
    assert_eq!(l.tune_step, 5);
    assert!(l.angle_measurements && l.rd_is_yaw_filter);
    let r = ap_copter::autotune_log::log_autotune(AxisType::YawD, TuneType::RateDUp);
    assert!(!r.angle_measurements && !r.rd_is_yaw_filter);
}

#[test]
fn a_full_counter_is_accepted_where_the_twitch_does_not_count() {
    let c = quiet();
    assert!(!update_gains_plan_counts_success(TuneType::RateDUp, false, &c));
    let p = update_gains_plan(TuneType::RateDUp, AxisType::Roll, i8::MAX, false, &c);
    assert_eq!(p.step, GainStep::RaiseRateD);
    assert_eq!(p.success_counter, i8::MAX - 1);
    let bounce = TwitchComparison { bounce_over_aggressiveness: true, ..quiet() };
    assert!(update_gains_plan_counts_success(TuneType::RateDUp, false, &bounce));
    assert!(update_gains_plan_counts_success(TuneType::AnglePDown, false, &TwitchComparison {
        angle_under_aggressive_target: true,
        ..quiet()
    }));
    assert!(!update_gains_plan_counts_success(TuneType::AnglePDown, true, &TwitchComparison {
        angle_under_aggressive_target: true,
        ..quiet()
    }));
}

#[test]
fn announcement_names_the_tune_type() {
    let a = do_gcs_announcements(&GcsAnnounceView { tune_type: TuneType::AnglePDown, ..GcsAnnounceView::typical() });
    assert_eq!(a.tune_type_name, "Angle P Down");
    assert_eq!(a.axis_name, "Roll");
}
