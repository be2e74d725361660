//! One pass of AutoTune: the ground and arming gates, the pilot override, and
//! the step machine that waits for level, twitches, updates gains and goes
//! back to waiting.
//!
//! While the pilot moves a stick the tune pauses on the original gains; half
//! a second after the sticks return to centre it starts again from waiting
//! for level. Waiting for level becomes a twitch only after the aircraft has
//! stayed level for more than a quarter of a second. After a twitch's gain
//! update, or an abort, the next twitch goes the other way.
//!
//! The twitch, the gain update and the level check's attitude comparison work
//! on real numbers and are computed by the caller; their outcomes arrive in
//! the view. The level wait's timer is kept here: a release of the override
//! restarts it before the level check, a slewing yaw restarts it again, and a
//! wait of three level timeouts fails the tune. The caller widens the level
//! limits by the time waited since that restarted start, which
//! [`autotune_pilot_override`] and `level_start_after_slew` give.

use vstd::prelude::*;
use crate::mode_autotune::{
    autotune_currently_level, level_elapsed, level_start_after_slew, level_start_spec,
    reverse_test_direction, AxisType, GainType, Step, TuneMode, TwitchTick,
    AUTOTUNE_LEVEL_TIMEOUT_MS,
    AUTOTUNE_PILOT_OVERRIDE_TIMEOUT_MS, AUTOTUNE_PILOT_OVERRIDE_WARN_MS,
    AUTOTUNE_REQUIRED_LEVEL_TIME_MS,
};
use crate::spool::{DesiredSpoolState, SpoolState};

verus! {

/// What a twitch pass produced.
#[derive(Debug, Clone, Copy, PartialEq, Eq, Structural)]
pub struct AutoTuneTwitchOutcome {
    /// Whether the twitch runs on, is done, or aborts.
    pub tick: TwitchTick,
    /// Whether the twitch failed the tune.
    pub failed: bool,
    /// Whether a gain limit was reached.
    pub reached_limit: bool,
    /// Whether a helicopter-only test was asked for.
    pub flow_of_control: bool,
    /// The step timeout afterwards.
    pub step_timeout_ms: u32,
    /// Whether the lean went past the negative limit or the maximum lean.
    pub lean_past_limit: bool,
    /// Whether an angle step was commanded.
    pub input_angle_step: bool,
    /// Whether a rate step was commanded.
    pub input_rate_step: bool,
    /// Whether the rates were held at zero after the angle step.
    pub input_rate_hold: bool,
}

/// What a gain update produced.
#[derive(Debug, Clone, Copy, PartialEq, Eq, Structural)]
pub struct AutoTuneGainsOutcome {
    /// The success counter afterwards.
    pub success_counter: i8,
    /// Whether the next twitch is ignored.
    pub ignore_next: bool,
    /// Whether a gain limit was reached.
    pub reached_limit: bool,
    /// Whether the update failed the tune.
    pub failed: bool,
    /// Whether a helicopter-only update was asked for.
    pub flow_of_control: bool,
    /// Whether this tune type is complete.
    pub complete: bool,
}

/// What one pass of AutoTune reads.
#[derive(Debug, Clone, Copy, PartialEq, Eq, Structural)]
pub struct AutoTuneRunView {
    /// The tuner's mode.
    pub mode: TuneMode,
    /// The tuner's step.
    pub step: Step,
    /// The axis being tuned.
    pub axis: AxisType,
    /// Whether the motors are armed.
    pub armed: bool,
    /// Whether the motor interlock allows output.
    pub interlock: bool,
    /// Whether the vehicle has landed.
    pub land_complete: bool,
    /// Where the motors are.
    pub spool_state: SpoolState,
    /// Whether the tune holds position.
    pub use_poshold: bool,
    /// Whether a position is being held.
    pub have_position: bool,
    /// Whether the position estimate is good.
    pub position_ok: bool,
    /// Whether the pilot's roll and pitch are both zero.
    pub pilot_rp_zero: bool,
    /// Whether the pilot's yaw rate is zero.
    pub pilot_yaw_rate_zero: bool,
    /// Whether the pilot's climb rate is zero.
    pub climb_rate_zero: bool,
    /// The clock.
    pub now_ms: u32,
    /// When the pilot last moved a stick.
    pub override_time: u32,
    /// When the override warning was last sent.
    pub last_pilot_override_warning: u32,
    /// Whether the pilot is overriding.
    pub pilot_override: bool,
    /// When the step started.
    pub step_start_time_ms: u32,
    /// When the level wait started.
    pub level_start_time_ms: u32,
    /// The step's timeout.
    pub step_timeout_ms: u32,
    /// The timeout of a twitch.
    pub testing_step_timeout_ms: u32,
    /// Whether the next twitch goes the positive way.
    pub positive_direction: bool,
    /// The success counter.
    pub success_counter: i8,
    /// Whether the next twitch is ignored.
    pub ignore_next: bool,
    /// The yaw target is still slewing, so the level wait restarts (read when
    /// waiting for level).
    pub level_yaw_slewing: bool,
    /// The attitude and rates are within the level limits, widened with the
    /// time waited since the level wait's start after this pass's override
    /// release and slew restart (read when waiting for level).
    pub level_within_limits: bool,
    /// The twitch (read when executing a test).
    pub twitch: AutoTuneTwitchOutcome,
    /// The gain update (read when updating gains).
    pub gains: AutoTuneGainsOutcome,
}

/// What the pilot override did this pass.
#[derive(Debug, Clone, Copy, PartialEq, Eq, Structural)]
pub struct AutoTuneOverride {
    /// Whether the pilot is overriding afterwards.
    pub pilot_override: bool,
    /// When the pilot last moved a stick.
    pub override_time: u32,
    /// Whether the override was released this pass (back to waiting for
    /// level, with the held yaw reset to the current heading).
    pub released: bool,
    /// Whether the override warning is sent.
    pub warning: bool,
    /// When the warning was last sent.
    pub last_warning: u32,
}

/// Milliseconds from `then` to `now` on a clock that wraps.
pub open spec fn elapsed_since(now: u32, then: u32) -> int {
    if now >= then {
        now - then
    } else {
        now - then + 0x1_0000_0000
    }
}

/// The override while tuning: any stick moved sets it and restamps it; with
/// the sticks centred it is released once more than half a second has passed;
/// while it holds, a warning goes out at most once a second.
pub open spec fn override_outcome(v: AutoTuneRunView) -> AutoTuneOverride {
    let moved = !v.pilot_rp_zero || !v.pilot_yaw_rate_zero || !v.climb_rate_zero;
    let released = !moved && v.pilot_override && elapsed_since(v.now_ms, v.override_time)
        > AUTOTUNE_PILOT_OVERRIDE_TIMEOUT_MS;
    let po = if moved { true } else if released { false } else { v.pilot_override };
    let warn = po && elapsed_since(v.now_ms, v.last_pilot_override_warning)
        > AUTOTUNE_PILOT_OVERRIDE_WARN_MS;
    AutoTuneOverride {
        pilot_override: po,
        override_time: if moved { v.now_ms } else { v.override_time },
        released,
        warning: warn,
        last_warning: if warn { v.now_ms } else { v.last_pilot_override_warning },
    }
}

/// The pilot override of a tuning pass.
pub fn autotune_pilot_override(view: &AutoTuneRunView) -> (r: AutoTuneOverride)
    ensures
        r == override_outcome(*view),
{
    let moved = !view.pilot_rp_zero || !view.pilot_yaw_rate_zero || !view.climb_rate_zero;
    let mut pilot_override = view.pilot_override;
    let mut override_time = view.override_time;
    let mut released = false;
    if moved {
        pilot_override = true;
        override_time = view.now_ms;
    } else if pilot_override && view.now_ms.wrapping_sub(override_time)
        > AUTOTUNE_PILOT_OVERRIDE_TIMEOUT_MS {
        pilot_override = false;
        released = true;
    }
    let mut warning = false;
    let mut last_warning = view.last_pilot_override_warning;
    if pilot_override && view.now_ms.wrapping_sub(last_warning) > AUTOTUNE_PILOT_OVERRIDE_WARN_MS {
        warning = true;
        last_warning = view.now_ms;
    }
    AutoTuneOverride { pilot_override, override_time, released, warning, last_warning }
}

/// What one pass of AutoTune did.
#[derive(Debug, Clone, Copy, PartialEq, Eq, Structural)]
pub struct AutoTuneRun {
    /// The simple-mode sticks were updated (always).
    pub update_simple_mode: bool,
    /// The vehicle disarms: landed at ground idle.
    pub disarmed_landed: bool,
    /// Landed: safe ground handling, and nothing else.
    pub make_safe_ground_handling: bool,
    /// The tuner ran.
    pub library_run: bool,
    /// The vertical limits were set.
    pub init_z_limits: bool,
    /// Where the motors go.
    pub desired_spool: Option<DesiredSpoolState>,
    /// Zero throttle (disarmed or interlocked).
    pub throttle_out_zero: bool,
    /// The vertical controller relaxed (disarmed or interlocked).
    pub d_relax: bool,
    /// The climb rate was followed.
    pub set_climb_rate: bool,
    /// The vertical controller ran.
    pub d_update: bool,
    /// The position hold was consulted (roll and pitch zero).
    pub poshold_called: bool,
    /// Whether a position is held afterwards.
    pub have_position: bool,
    /// An internal error: run before the tune was set up.
    pub flow_of_control: bool,
    /// The tuner's mode afterwards.
    pub mode: TuneMode,
    /// The step afterwards.
    pub step: Step,
    /// The override afterwards.
    pub pilot_override: bool,
    /// When the pilot last moved a stick.
    pub override_time: u32,
    /// When the warning was last sent.
    pub last_pilot_override_warning: u32,
    /// Whether the override warning is sent.
    pub pilot_override_warning: bool,
    /// Which gains are loaded.
    pub loaded_gains: Option<GainType>,
    /// The pilot flies: roll, pitch and yaw rate.
    pub input_euler_rp_yaw_rate: bool,
    /// Level hold: roll, pitch and yaw angle.
    pub input_euler_rp_yaw: bool,
    /// The step machine ran.
    pub control_attitude: bool,
    /// The announcements ran.
    pub do_gcs_announcements: bool,
    /// The level check's answer, when it ran.
    pub currently_level: Option<bool>,
    /// The level wait failed the tune.
    pub failed_to_level: bool,
    /// A twitch was set up.
    pub test_init: bool,
    /// A twitch pass ran.
    pub test_run: bool,
    /// An angle step was commanded.
    pub input_angle_step: bool,
    /// A rate step was commanded.
    pub input_rate_step: bool,
    /// The rates were held at zero.
    pub input_rate_hold: bool,
    /// A helicopter-only twitch was asked for.
    pub twitch_flow_of_control: bool,
    /// The twitch failed the tune.
    pub twitch_failed: bool,
    /// The twitch reached a limit.
    pub twitch_reached_limit: bool,
    /// The gains were updated.
    pub update_gains: bool,
    /// The success counter afterwards.
    pub success_counter: i8,
    /// Whether the next twitch is ignored afterwards.
    pub ignore_next: bool,
    /// The gain update reached a limit.
    pub update_gains_reached_limit: bool,
    /// The gain update failed the tune.
    pub update_gains_failed: bool,
    /// A helicopter-only update was asked for.
    pub update_gains_flow_of_control: bool,
    /// The tune type is complete.
    pub update_gains_complete: bool,
    /// The direction of the next twitch.
    pub positive_direction: bool,
    /// Whether the held yaw is reset to the current heading.
    pub reset_desired_yaw: bool,
    /// When the step started, afterwards.
    pub step_start_time_ms: u32,
    /// When the level wait started, afterwards.
    pub level_start_time_ms: u32,
    /// The step's timeout, afterwards.
    pub step_timeout_ms: u32,
}

/// Nothing but the simple-mode update: every field carries over.
pub open spec fn run_passthrough_spec(v: AutoTuneRunView) -> AutoTuneRun {
    AutoTuneRun {
        update_simple_mode: true,
        disarmed_landed: false,
        make_safe_ground_handling: false,
        library_run: false,
        init_z_limits: false,
        desired_spool: None,
        throttle_out_zero: false,
        d_relax: false,
        set_climb_rate: false,
        d_update: false,
        poshold_called: false,
        have_position: v.have_position,
        flow_of_control: false,
        mode: v.mode,
        step: v.step,
        pilot_override: v.pilot_override,
        override_time: v.override_time,
        last_pilot_override_warning: v.last_pilot_override_warning,
        pilot_override_warning: false,
        loaded_gains: None,
        input_euler_rp_yaw_rate: false,
        input_euler_rp_yaw: false,
        control_attitude: false,
        do_gcs_announcements: false,
        currently_level: None,
        failed_to_level: false,
        test_init: false,
        test_run: false,
        input_angle_step: false,
        input_rate_step: false,
        input_rate_hold: false,
        twitch_flow_of_control: false,
        twitch_failed: false,
        twitch_reached_limit: false,
        update_gains: false,
        success_counter: v.success_counter,
        ignore_next: v.ignore_next,
        update_gains_reached_limit: false,
        update_gains_failed: false,
        update_gains_flow_of_control: false,
        update_gains_complete: false,
        positive_direction: v.positive_direction,
        reset_desired_yaw: false,
        step_start_time_ms: v.step_start_time_ms,
        level_start_time_ms: v.level_start_time_ms,
        step_timeout_ms: v.step_timeout_ms,
    }
}

fn run_passthrough(v: &AutoTuneRunView) -> (r: AutoTuneRun)
    ensures
        r == run_passthrough_spec(*v),
{
    AutoTuneRun {
        update_simple_mode: true,
        disarmed_landed: false,
        make_safe_ground_handling: false,
        library_run: false,
        init_z_limits: false,
        desired_spool: None,
        throttle_out_zero: false,
        d_relax: false,
        set_climb_rate: false,
        d_update: false,
        poshold_called: false,
        have_position: v.have_position,
        flow_of_control: false,
        mode: v.mode,
        step: v.step,
        pilot_override: v.pilot_override,
        override_time: v.override_time,
        last_pilot_override_warning: v.last_pilot_override_warning,
        pilot_override_warning: false,
        loaded_gains: None,
        input_euler_rp_yaw_rate: false,
        input_euler_rp_yaw: false,
        control_attitude: false,
        do_gcs_announcements: false,
        currently_level: None,
        failed_to_level: false,
        test_init: false,
        test_run: false,
        input_angle_step: false,
        input_rate_step: false,
        input_rate_hold: false,
        twitch_flow_of_control: false,
        twitch_failed: false,
        twitch_reached_limit: false,
        update_gains: false,
        success_counter: v.success_counter,
        ignore_next: v.ignore_next,
        update_gains_reached_limit: false,
        update_gains_failed: false,
        update_gains_flow_of_control: false,
        update_gains_complete: false,
        positive_direction: v.positive_direction,
        reset_desired_yaw: false,
        step_start_time_ms: v.step_start_time_ms,
        level_start_time_ms: v.level_start_time_ms,
        step_timeout_ms: v.step_timeout_ms,
    }
}

/// Back to waiting for level, the next twitch the other way, clocks restarted.
pub open spec fn abort_to_level_spec(v: AutoTuneRunView, out: AutoTuneRun) -> AutoTuneRun {
    AutoTuneRun {
        input_euler_rp_yaw: true,
        loaded_gains: Some(GainType::IntraTest),
        step: Step::WaitingForLevel,
        positive_direction: !v.positive_direction,
        step_start_time_ms: v.now_ms,
        level_start_time_ms: v.now_ms,
        step_timeout_ms: AUTOTUNE_REQUIRED_LEVEL_TIME_MS,
        ..out
    }
}

/// The step machine. `v.step` and the clocks in `v` are those after the
/// override.
pub open spec fn control_attitude_spec(v: AutoTuneRunView, out: AutoTuneRun) -> AutoTuneRun {
    let out = AutoTuneRun { control_attitude: true, ..out };
    let now = v.now_ms;
    match v.step {
        Step::WaitingForLevel => {
            let level_start = level_start_spec(now, v.level_start_time_ms, v.level_yaw_slewing);
            let failed = level_elapsed(now, level_start) > 3 * AUTOTUNE_LEVEL_TIMEOUT_MS;
            let step_start = if v.level_within_limits { v.step_start_time_ms } else { now };
            let go = elapsed_since(now, step_start) > AUTOTUNE_REQUIRED_LEVEL_TIME_MS;
            AutoTuneRun {
                loaded_gains: Some(if go { GainType::Test } else { GainType::IntraTest }),
                input_euler_rp_yaw: true,
                currently_level: Some(v.level_within_limits),
                level_start_time_ms: level_start,
                failed_to_level: failed,
                mode: if failed { TuneMode::Failed } else { out.mode },
                step: if go { Step::ExecutingTest } else { Step::WaitingForLevel },
                step_start_time_ms: if go { now } else { step_start },
                step_timeout_ms: if go { v.testing_step_timeout_ms } else { out.step_timeout_ms },
                test_init: go,
                ..out
            }
        },
        Step::ExecutingTest => {
            let t = v.twitch;
            AutoTuneRun {
                loaded_gains: Some(GainType::Test),
                test_run: true,
                input_angle_step: t.input_angle_step,
                input_rate_step: t.input_rate_step,
                input_rate_hold: t.input_rate_hold,
                twitch_flow_of_control: t.flow_of_control,
                twitch_failed: t.failed,
                twitch_reached_limit: t.reached_limit,
                step_timeout_ms: t.step_timeout_ms,
                mode: if t.failed { TuneMode::Failed } else { out.mode },
                step: if t.lean_past_limit {
                    Step::Abort
                } else {
                    match t.tick {
                        TwitchTick::Running => Step::ExecutingTest,
                        TwitchTick::Done => Step::UpdateGains,
                        TwitchTick::Aborted => Step::Abort,
                    }
                },
                reset_desired_yaw: out.reset_desired_yaw || v.axis == AxisType::Yaw || v.axis
                    == AxisType::YawD,
                ..out
            }
        },
        Step::UpdateGains => {
            let g = v.gains;
            abort_to_level_spec(
                v,
                AutoTuneRun {
                    update_gains: true,
                    success_counter: g.success_counter,
                    ignore_next: g.ignore_next,
                    update_gains_reached_limit: g.reached_limit,
                    update_gains_failed: g.failed,
                    update_gains_flow_of_control: g.flow_of_control,
                    update_gains_complete: g.complete,
                    mode: if g.failed { TuneMode::Failed } else { out.mode },
                    ..out
                },
            )
        },
        Step::Abort => abort_to_level_spec(v, out),
    }
}

fn control_attitude(view: &AutoTuneRunView, out: AutoTuneRun) -> (r: AutoTuneRun)
    ensures
        r == control_attitude_spec(*view, out),
{
    let out = AutoTuneRun { control_attitude: true, ..out };
    let now = view.now_ms;
    match view.step {
        Step::WaitingForLevel => {
            let level_start = level_start_after_slew(
                now,
                view.level_start_time_ms,
                view.level_yaw_slewing,
            );
            let level = autotune_currently_level(now, level_start, view.level_within_limits);
            let step_start = if level.level { view.step_start_time_ms } else { now };
            let go = now.wrapping_sub(step_start) > AUTOTUNE_REQUIRED_LEVEL_TIME_MS;
            AutoTuneRun {
                loaded_gains: Some(if go { GainType::Test } else { GainType::IntraTest }),
                input_euler_rp_yaw: true,
                currently_level: Some(level.level),
                level_start_time_ms: level.level_start_time_ms,
                failed_to_level: level.failed,
                mode: if level.failed { TuneMode::Failed } else { out.mode },
                step: if go { Step::ExecutingTest } else { Step::WaitingForLevel },
                step_start_time_ms: if go { now } else { step_start },
                step_timeout_ms: if go { view.testing_step_timeout_ms } else { out.step_timeout_ms },
                test_init: go,
                ..out
            }
        },
        Step::ExecutingTest => {
            let t = view.twitch;
            let step = if t.lean_past_limit {
                Step::Abort
            } else {
                match t.tick {
                    TwitchTick::Running => Step::ExecutingTest,
                    TwitchTick::Done => Step::UpdateGains,
                    TwitchTick::Aborted => Step::Abort,
                }
            };
            let yaw_axis = match view.axis {
                AxisType::Yaw | AxisType::YawD => true,
                _ => false,
            };
            AutoTuneRun {
                loaded_gains: Some(GainType::Test),
                test_run: true,
                input_angle_step: t.input_angle_step,
                input_rate_step: t.input_rate_step,
                input_rate_hold: t.input_rate_hold,
                twitch_flow_of_control: t.flow_of_control,
                twitch_failed: t.failed,
                twitch_reached_limit: t.reached_limit,
                step_timeout_ms: t.step_timeout_ms,
                mode: if t.failed { TuneMode::Failed } else { out.mode },
                step,
                reset_desired_yaw: out.reset_desired_yaw || yaw_axis,
                ..out
            }
        },
        Step::UpdateGains => {
            let g = view.gains;
            let updated = AutoTuneRun {
                update_gains: true,
                success_counter: g.success_counter,
                ignore_next: g.ignore_next,
                update_gains_reached_limit: g.reached_limit,
                update_gains_failed: g.failed,
                update_gains_flow_of_control: g.flow_of_control,
                update_gains_complete: g.complete,
                mode: if g.failed { TuneMode::Failed } else { out.mode },
                ..out
            };
            abort_to_level(view, updated)
        },
        Step::Abort => abort_to_level(view, out),
    }
}

fn abort_to_level(view: &AutoTuneRunView, out: AutoTuneRun) -> (r: AutoTuneRun)
    ensures
        r == abort_to_level_spec(*view, out),
{
    let positive_direction = reverse_test_direction(view.positive_direction);
    AutoTuneRun {
        input_euler_rp_yaw: true,
        loaded_gains: Some(GainType::IntraTest),
        step: Step::WaitingForLevel,
        positive_direction,
        step_start_time_ms: view.now_ms,
        level_start_time_ms: view.now_ms,
        step_timeout_ms: AUTOTUNE_REQUIRED_LEVEL_TIME_MS,
        ..out
    }
}

/// One pass of AutoTune. Landed: safe ground handling only (disarming at
/// ground idle). Disarmed or interlocked: ground idle, zero throttle, relaxed
/// controller. Otherwise the position hold is consulted with centred roll and
/// pitch; while tuning, the pilot override decides between the pilot flying on
/// the original gains and the step machine; a failed or finished tune flies
/// the original gains, a validating one the tuned gains. The motors then run
/// unlimited and the climb rate is followed.
pub open spec fn autotune_run_outcome(v: AutoTuneRunView) -> AutoTuneRun {
    let base = run_passthrough_spec(v);
    if v.land_complete {
        AutoTuneRun {
            disarmed_landed: v.spool_state == SpoolState::GroundIdle,
            make_safe_ground_handling: true,
            ..base
        }
    } else if !v.armed || !v.interlock {
        AutoTuneRun {
            library_run: true,
            init_z_limits: true,
            desired_spool: Some(DesiredSpoolState::GroundIdle),
            throttle_out_zero: true,
            d_relax: true,
            ..base
        }
    } else {
        let zero_rp = v.pilot_rp_zero;
        let base = AutoTuneRun {
            library_run: true,
            init_z_limits: true,
            poshold_called: zero_rp,
            have_position: v.have_position || (zero_rp && v.use_poshold && v.position_ok),
            ..base
        };
        let mid = match v.mode {
            TuneMode::Tuning => {
                let o = override_outcome(v);
                let step = if o.released { Step::WaitingForLevel } else { v.step };
                let step_start = if o.released { v.now_ms } else { v.step_start_time_ms };
                let level_start = if o.released { v.now_ms } else { v.level_start_time_ms };
                let out = AutoTuneRun {
                    have_position: if !zero_rp { false } else { base.have_position },
                    pilot_override: o.pilot_override,
                    override_time: o.override_time,
                    step,
                    step_start_time_ms: step_start,
                    level_start_time_ms: level_start,
                    reset_desired_yaw: o.released,
                    last_pilot_override_warning: o.last_warning,
                    pilot_override_warning: o.warning,
                    ..base
                };
                if o.pilot_override {
                    AutoTuneRun {
                        loaded_gains: Some(GainType::Original),
                        input_euler_rp_yaw_rate: true,
                        ..out
                    }
                } else {
                    let av = AutoTuneRunView {
                        step,
                        step_start_time_ms: step_start,
                        level_start_time_ms: level_start,
                        ..v
                    };
                    AutoTuneRun { do_gcs_announcements: true, ..control_attitude_spec(av, out) }
                }
            },
            TuneMode::Uninitialised => AutoTuneRun {
                flow_of_control: true,
                loaded_gains: Some(GainType::Original),
                input_euler_rp_yaw_rate: true,
                ..base
            },
            TuneMode::Failed | TuneMode::Finished => AutoTuneRun {
                loaded_gains: Some(GainType::Original),
                input_euler_rp_yaw_rate: true,
                ..base
            },
            TuneMode::Validating => AutoTuneRun {
                loaded_gains: Some(GainType::Tuned),
                input_euler_rp_yaw_rate: true,
                ..base
            },
        };
        AutoTuneRun {
            desired_spool: Some(DesiredSpoolState::ThrottleUnlimited),
            set_climb_rate: true,
            d_update: true,
            ..mid
        }
    }
}

/// One pass of AutoTune.
pub fn mode_autotune_run(view: &AutoTuneRunView) -> (r: AutoTuneRun)
    ensures
        r == autotune_run_outcome(*view),
{
    let base = run_passthrough(view);
    if view.land_complete {
        let ground_idle = match view.spool_state {
            SpoolState::GroundIdle => true,
            _ => false,
        };
        return AutoTuneRun { disarmed_landed: ground_idle, make_safe_ground_handling: true, ..base };
    }
    if !view.armed || !view.interlock {
        return AutoTuneRun {
            library_run: true,
            init_z_limits: true,
            desired_spool: Some(DesiredSpoolState::GroundIdle),
            throttle_out_zero: true,
            d_relax: true,
            ..base
        };
    }
    let zero_rp = view.pilot_rp_zero;
    let base = AutoTuneRun {
        library_run: true,
        init_z_limits: true,
        poshold_called: zero_rp,
        have_position: view.have_position || (zero_rp && view.use_poshold && view.position_ok),
        ..base
    };
    let mid = match view.mode {
        TuneMode::Tuning => {
            let o = autotune_pilot_override(view);
            let step = if o.released { Step::WaitingForLevel } else { view.step };
            let step_start = if o.released { view.now_ms } else { view.step_start_time_ms };
            let level_start = if o.released { view.now_ms } else { view.level_start_time_ms };
            let out = AutoTuneRun {
                have_position: if !zero_rp { false } else { base.have_position },
                pilot_override: o.pilot_override,
                override_time: o.override_time,
                step,
                step_start_time_ms: step_start,
                level_start_time_ms: level_start,
                reset_desired_yaw: o.released,
                last_pilot_override_warning: o.last_warning,
                pilot_override_warning: o.warning,
                ..base
            };
            if o.pilot_override {
                AutoTuneRun {
                    loaded_gains: Some(GainType::Original),
                    input_euler_rp_yaw_rate: true,
                    ..out
                }
            } else {
                let attitude_view = AutoTuneRunView {
                    step,
                    step_start_time_ms: step_start,
                    level_start_time_ms: level_start,
                    ..*view
                };
                let done = control_attitude(&attitude_view, out);
                AutoTuneRun { do_gcs_announcements: true, ..done }
            }
        },
        TuneMode::Uninitialised => AutoTuneRun {
            flow_of_control: true,
            loaded_gains: Some(GainType::Original),
            input_euler_rp_yaw_rate: true,
            ..base
        },
        TuneMode::Failed | TuneMode::Finished => AutoTuneRun {
            loaded_gains: Some(GainType::Original),
            input_euler_rp_yaw_rate: true,
            ..base
        },
        TuneMode::Validating => AutoTuneRun {
            loaded_gains: Some(GainType::Tuned),
            input_euler_rp_yaw_rate: true,
            ..base
        },
    };
    AutoTuneRun {
        desired_spool: Some(DesiredSpoolState::ThrottleUnlimited),
        set_climb_rate: true,
        d_update: true,
        ..mid
    }
}

/// A twitch starts only from a pass that found the aircraft level and whose
/// level wait had already lasted more than a quarter of a second.
pub proof fn lemma_twitch_needs_settled_level(v: AutoTuneRunView)
    requires
        v.step == Step::WaitingForLevel,
        !v.land_complete,
        v.armed,
        v.interlock,
        v.mode == TuneMode::Tuning,
        !override_outcome(v).pilot_override,
        !override_outcome(v).released,
        autotune_run_outcome(v).step == Step::ExecutingTest,
    ensures
        v.level_within_limits,
        elapsed_since(v.now_ms, v.step_start_time_ms) > AUTOTUNE_REQUIRED_LEVEL_TIME_MS,
        autotune_run_outcome(v).test_init,
{
}

/// After a gain update or an abort the tuner waits for level again, and the
/// next twitch goes the other way.
pub proof fn lemma_twitches_alternate(v: AutoTuneRunView)
    requires
        v.step == Step::UpdateGains || v.step == Step::Abort,
        !v.land_complete,
        v.armed,
        v.interlock,
        v.mode == TuneMode::Tuning,
        !override_outcome(v).pilot_override,
        !override_outcome(v).released,
    ensures
        autotune_run_outcome(v).step == Step::WaitingForLevel,
        autotune_run_outcome(v).positive_direction == !v.positive_direction,
        autotune_run_outcome(v).step_timeout_ms == AUTOTUNE_REQUIRED_LEVEL_TIME_MS,
{
}

/// While the pilot overrides, the tune does not advance and the original gains
/// fly; a tune is only failed by the level wait, a twitch or a gain update.
pub proof fn lemma_override_pauses_tune(v: AutoTuneRunView)
    requires
        !v.land_complete,
        v.armed,
        v.interlock,
        v.mode == TuneMode::Tuning,
        override_outcome(v).pilot_override,
    ensures
        !autotune_run_outcome(v).control_attitude,
        autotune_run_outcome(v).loaded_gains == Some(GainType::Original),
        autotune_run_outcome(v).step == v.step,
        autotune_run_outcome(v).mode == TuneMode::Tuning,
{
}

/// On the ground, or disarmed, the tuner never touches its step or its mode.
pub proof fn lemma_ground_leaves_tune_alone(v: AutoTuneRunView)
    requires
        v.land_complete || !v.armed || !v.interlock,
    ensures
        autotune_run_outcome(v).step == v.step,
        autotune_run_outcome(v).mode == v.mode,
        !autotune_run_outcome(v).control_attitude,
{
}

/// A pass that releases the pilot override goes back to waiting for level
/// with the level wait restarted now, before the level check runs: that pass
/// checks level against a fresh wait, never fails the tune for a wait that
/// ran during the override, and does not start a twitch.
pub proof fn lemma_release_restarts_level_wait(v: AutoTuneRunView)
    requires
        !v.land_complete,
        v.armed,
        v.interlock,
        v.mode == TuneMode::Tuning,
        override_outcome(v).released,
    ensures
        autotune_run_outcome(v).control_attitude,
        autotune_run_outcome(v).reset_desired_yaw,
        autotune_run_outcome(v).currently_level == Some(v.level_within_limits),
        autotune_run_outcome(v).level_start_time_ms == v.now_ms,
        !autotune_run_outcome(v).failed_to_level,
        autotune_run_outcome(v).mode == TuneMode::Tuning,
        autotune_run_outcome(v).step == Step::WaitingForLevel,
{
}

} // verus!
