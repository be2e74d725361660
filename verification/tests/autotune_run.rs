use ap_copter::mode_autotune::{AxisType, GainType, Step, TuneMode, TwitchTick};
use ap_copter::mode_autotune_run::{
    autotune_pilot_override, mode_autotune_run, AutoTuneGainsOutcome, AutoTuneRunView,
    AutoTuneTwitchOutcome,
};
use ap_copter::spool::{DesiredSpoolState, SpoolState};

fn view() -> AutoTuneRunView {
    AutoTuneRunView {
        mode: TuneMode::Tuning,
        step: Step::WaitingForLevel,
        axis: AxisType::Roll,
        armed: true,
        interlock: true,
        land_complete: false,
        spool_state: SpoolState::ThrottleUnlimited,
        use_poshold: false,
        have_position: false,
        position_ok: false,
        pilot_rp_zero: true,
        pilot_yaw_rate_zero: true,
        climb_rate_zero: true,
        now_ms: 10_000,
        override_time: 0,
        last_pilot_override_warning: 0,
        pilot_override: false,
        step_start_time_ms: 9_800,
        level_start_time_ms: 8_000,
        step_timeout_ms: 250,
        testing_step_timeout_ms: 2000,
        positive_direction: true,
        success_counter: 0,
        ignore_next: false,
        level_yaw_slewing: false,
        level_within_limits: true,
        twitch: AutoTuneTwitchOutcome {
            tick: TwitchTick::Running,
            failed: false,
            reached_limit: false,
            flow_of_control: false,
            step_timeout_ms: 2000,
            lean_past_limit: false,
            input_angle_step: false,
            input_rate_step: true,
            input_rate_hold: false,
        },
        gains: AutoTuneGainsOutcome {
            success_counter: 1,
            ignore_next: true,
            reached_limit: false,
            failed: false,
            flow_of_control: false,
            complete: false,
        },
    }
}

#[test]
fn waiting_for_level_needs_a_quarter_second() {
    let r = mode_autotune_run(&view());
    assert_eq!(r.step, Step::WaitingForLevel);
    assert_eq!(r.loaded_gains, Some(GainType::IntraTest));
    let ready = AutoTuneRunView { step_start_time_ms: 9_749, ..view() };
    let r = mode_autotune_run(&ready);
    assert_eq!(r.step, Step::ExecutingTest);
    assert!(r.test_init);
    assert_eq!(r.step_timeout_ms, 2000);
    assert_eq!(r.loaded_gains, Some(GainType::Test));
    let not_level = AutoTuneRunView {
        step_start_time_ms: 0,
        level_within_limits: false,
        ..view()
    };
    let r = mode_autotune_run(&not_level);
    assert_eq!(r.step, Step::WaitingForLevel);
    assert_eq!(r.step_start_time_ms, 10_000);
    let failed = AutoTuneRunView { level_within_limits: false, level_start_time_ms: 3_000, ..view() };
    let r = mode_autotune_run(&failed);
    assert_eq!(r.mode, TuneMode::Failed);
    assert!(r.failed_to_level);
    let slewing = AutoTuneRunView { level_yaw_slewing: true, ..failed };
    let r = mode_autotune_run(&slewing);
    assert_eq!(r.mode, TuneMode::Tuning);
    assert_eq!(r.level_start_time_ms, 10_000);
}

#[test]
fn twitch_outcomes_and_abort_reverse_direction() {
    let exec = AutoTuneRunView { step: Step::ExecutingTest, ..view() };
    assert_eq!(mode_autotune_run(&exec).step, Step::ExecutingTest);
    let done = AutoTuneRunView { twitch: AutoTuneTwitchOutcome { tick: TwitchTick::Done, ..view().twitch }, ..exec };
    assert_eq!(mode_autotune_run(&done).step, Step::UpdateGains);
    let leaning = AutoTuneRunView { twitch: AutoTuneTwitchOutcome { lean_past_limit: true, ..done.twitch }, ..exec };
    assert_eq!(mode_autotune_run(&leaning).step, Step::Abort);
    let yaw = AutoTuneRunView { axis: AxisType::Yaw, ..exec };
    assert!(mode_autotune_run(&yaw).reset_desired_yaw);
    let update = AutoTuneRunView { step: Step::UpdateGains, ..view() };
    let r = mode_autotune_run(&update);
    assert_eq!(r.step, Step::WaitingForLevel);
    assert!(!r.positive_direction);
    assert_eq!(r.success_counter, 1);
    assert!(r.ignore_next && r.update_gains);
    let abort = AutoTuneRunView { step: Step::Abort, positive_direction: false, ..view() };
    assert!(mode_autotune_run(&abort).positive_direction);
}

#[test]
fn pilot_override_pauses_and_releases() {
    let sticks = AutoTuneRunView { pilot_rp_zero: false, step: Step::ExecutingTest, ..view() };
    let r = mode_autotune_run(&sticks);
    assert!(r.pilot_override && r.pilot_override_warning && !r.control_attitude);
    assert_eq!(r.loaded_gains, Some(GainType::Original));
    assert_eq!(r.step, Step::ExecutingTest);
    assert_eq!(r.override_time, 10_000);
    let held = AutoTuneRunView { pilot_override: true, override_time: 9_600, step: Step::ExecutingTest, ..view() };
    let o = autotune_pilot_override(&held);
    assert!(o.pilot_override && !o.released);
    let released = AutoTuneRunView { override_time: 9_499, ..held };
    let r = mode_autotune_run(&released);
    assert!(!r.pilot_override && r.reset_desired_yaw && r.control_attitude);
    assert_eq!(r.step, Step::WaitingForLevel);
}

#[test]
fn ground_and_other_modes() {
    let landed = AutoTuneRunView { land_complete: true, spool_state: SpoolState::GroundIdle, ..view() };
    let r = mode_autotune_run(&landed);
    assert!(r.disarmed_landed && r.make_safe_ground_handling && !r.library_run);
    let disarmed = AutoTuneRunView { armed: false, ..view() };
    let r = mode_autotune_run(&disarmed);
    assert_eq!(r.desired_spool, Some(DesiredSpoolState::GroundIdle));
    assert!(r.throttle_out_zero && r.d_relax);
    let validating = AutoTuneRunView { mode: TuneMode::Validating, ..view() };
    assert_eq!(mode_autotune_run(&validating).loaded_gains, Some(GainType::Tuned));
    let uninit = AutoTuneRunView { mode: TuneMode::Uninitialised, ..view() };
    assert!(mode_autotune_run(&uninit).flow_of_control);
    let hold = AutoTuneRunView { use_poshold: true, position_ok: true, ..view() };
    assert!(mode_autotune_run(&hold).have_position);
}

#[test]
fn release_restarts_the_level_wait_before_the_check() {
    let releasing = AutoTuneRunView {
        step: Step::ExecutingTest,
        pilot_override: true,
        override_time: 1_000,
        level_start_time_ms: 1_000,
        level_within_limits: false,
        ..view()
    };
    let r = mode_autotune_run(&releasing);
    assert!(!r.pilot_override);
    assert_eq!(r.step, Step::WaitingForLevel);
    assert_eq!(r.level_start_time_ms, 10_000);
    assert!(!r.failed_to_level);
    assert_eq!(r.mode, TuneMode::Tuning);
    assert_eq!(r.currently_level, Some(false));
}
