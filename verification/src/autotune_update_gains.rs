//! The bookkeeping of AutoTune's gain updates.
//!
//! One update after a twitch runs in two halves. The first reads how the
//! measured response compared with its targets and decides which gain to
//! step, how the success counter moves and whether the next twitch is to be
//! ignored. The caller then steps the gain by the tune type's ratio and clamps
//! it to its limits. The second half reads which limits clamped and settles
//! the counter, the limit and failure reports and the tuner's mode.

use vstd::prelude::*;
use crate::mode_autotune::{AxisType, TuneMode, TuneType, AUTOTUNE_SUCCESS_COUNT};

verus! {

/// Whether reaching the D floor during rate-P-up fails the tune. Yaw tunes its
/// error filter rather than D, so for it the floor is not a failure.
pub fn rate_p_fail_min_d(axis: AxisType) -> (r: bool)
    ensures
        r == (axis != AxisType::Yaw),
{
    !matches!(axis, AxisType::Yaw)
}

/// How a twitch's measured response compared with its targets and the gains
/// with their limits. Each field is one comparison; a tune type reads only
/// the ones its rule names.
#[derive(Debug, Clone, Copy, PartialEq, Eq, Structural)]
pub struct TwitchComparison {
    /// The peak rate went above the target rate.
    pub rate_over_target: bool,
    /// The peak rate stayed below the target rate.
    pub rate_under_target: bool,
    /// The peak rate stayed below the target less the up/down margin.
    pub rate_under_margin: bool,
    /// The peak rate went above the target less the up/down margin.
    pub rate_over_margin: bool,
    /// The peak rate went above the target plus half the aggressiveness.
    pub rate_over_aggressive_target: bool,
    /// The bounce back from the peak rate was more than the aggressiveness
    /// share of the peak.
    pub bounce_over_aggressiveness: bool,
    /// The bounce back was less than that share.
    pub bounce_under_aggressiveness: bool,
    /// The rate swung back past minus the aggressiveness share of the peak.
    pub rate_swung_back: bool,
    /// The peak angle went above the target angle.
    pub angle_over_target: bool,
    /// The peak angle went above the target plus half the aggressiveness.
    pub angle_over_aggressive_target: bool,
    /// The peak angle stayed below the target plus half the aggressiveness.
    pub angle_under_aggressive_target: bool,
    /// The rate P gain is at or below its maximum.
    pub p_within_max: bool,
    /// The rate D gain (the yaw error filter on yaw) is above its minimum.
    pub d_above_min: bool,
}

/// The gain change an update asks for, with what its limit means.
#[derive(Debug, Clone, Copy, PartialEq, Eq, Structural)]
pub enum GainStep {
    /// No gain changes.
    Hold,
    /// Lower rate P; if it reaches its floor, lower rate D as well, and a D
    /// floor completes the tune type.
    LowerRatePThenD,
    /// Raise rate P; its ceiling is only reported.
    RaiseRatePReported,
    /// Raise rate D by a double step; its ceiling completes the tune type.
    RaiseRateD,
    /// Lower rate D; its floor completes the tune type.
    LowerRateD,
    /// Lower rate D and rate P. The D floor fails the tune when
    /// `fail_min_d`; the P floor always does.
    LowerRateDAndP { fail_min_d: bool },
    /// Raise rate P; its ceiling completes the tune type.
    RaiseRateP,
    /// Lower angle P; its floor fails the tune.
    LowerAngleP,
    /// Raise angle P; its ceiling completes the tune type.
    RaiseAngleP,
}

/// The first half of an update: the gain step and the counters before any
/// limit is known.
#[derive(Debug, Clone, Copy, PartialEq, Eq, Structural)]
pub struct GainPlan {
    /// The gain change to make.
    pub step: GainStep,
    /// The success counter.
    pub success_counter: i8,
    /// Whether the next twitch is ignored.
    pub ignore_next: bool,
    /// A helicopter tune type reached the multicopter updater.
    pub flow_of_control: bool,
}

/// Which limits clamped the stepped gains.
#[derive(Debug, Clone, Copy, PartialEq, Eq, Structural)]
pub struct GainClamps {
    /// The P gain reached its limit in the step's direction.
    pub p_clamped: bool,
    /// The D gain reached its limit in the step's direction.
    pub d_clamped: bool,
}

/// The bookkeeping an update leaves behind.
#[derive(Debug, Clone, Copy, PartialEq, Eq, Structural)]
pub struct UpdateGains {
    /// The success counter after the update.
    pub success_counter: i8,
    /// Whether the next twitch is ignored.
    pub ignore_next: bool,
    /// A gain reached a limit.
    pub reached_limit: bool,
    /// The tune failed.
    pub failed: bool,
    /// A helicopter tune type reached the multicopter updater.
    pub flow_of_control: bool,
    /// The rate D floor was reached ("Min Rate D limit reached").
    pub min_rate_d_limit: bool,
    /// Rate D could not be determined.
    pub rate_d_failed: bool,
    /// Rate P could not be determined.
    pub rate_p_failed: bool,
    /// Angle P could not be determined.
    pub angle_p_failed: bool,
    /// The tune type has collected enough successes.
    pub tune_type_complete: bool,
    /// The tuner's mode after the update.
    pub mode: TuneMode,
}

/// The success count as a counter value.
pub open spec fn success_count() -> i8 {
    AUTOTUNE_SUCCESS_COUNT as i8
}

/// A counter lowered by one unless it is already zero or below.
pub open spec fn counter_down(c: i8) -> i8 {
    if c > 0 {
        (c - 1) as i8
    } else {
        c
    }
}

/// A counter raised by one.
pub open spec fn counter_up(c: i8) -> i8 {
    (c + 1) as i8
}

/// A plan that changes nothing.
pub open spec fn hold_plan(counter: i8, ignore_next: bool) -> GainPlan {
    GainPlan { step: GainStep::Hold, success_counter: counter, ignore_next, flow_of_control: false }
}

/// A plan from its step and counters.
pub open spec fn plan(step: GainStep, counter: i8, ignore_next: bool) -> GainPlan {
    GainPlan { step, success_counter: counter, ignore_next, flow_of_control: false }
}

/// The first half of an update, by tune type.
///
/// - Rate D up and down first correct an overshoot by lowering P, then a
///   shortfall by raising P; otherwise rate D up counts a bounce as a success
///   and raises D on a clean twitch, and rate D down counts a clean twitch as
///   a success and lowers D on a bounce.
/// - Rate P up counts an overshoot as a success, backs D and P off on a bounce
///   just short of the target, and otherwise raises P.
/// - Angle P down counts a twitch within the target as a success and lowers P
///   otherwise; angle P up counts an overshoot (or a swing back past the
///   target) as a success and raises P otherwise.
/// - A counted bounce or overshoot marks the next twitch to be ignored; a
///   twitch that would have raised the gain while so marked only clears the
///   mark.
pub open spec fn update_gains_plan_spec(
    tune_type: TuneType,
    axis: AxisType,
    counter: i8,
    ignore_next: bool,
    c: TwitchComparison,
) -> GainPlan {
    match tune_type {
        TuneType::RateDUp => if c.rate_over_target {
            plan(GainStep::LowerRatePThenD, counter, ignore_next)
        } else if c.rate_under_margin && c.p_within_max {
            plan(GainStep::RaiseRatePReported, counter, ignore_next)
        } else if c.bounce_over_aggressiveness {
            hold_plan(counter_up(counter), true)
        } else if !ignore_next {
            plan(GainStep::RaiseRateD, counter_down(counter), false)
        } else {
            hold_plan(counter, false)
        },
        TuneType::RateDDown => if c.rate_over_target {
            plan(GainStep::LowerRatePThenD, counter, ignore_next)
        } else if c.rate_under_margin && c.p_within_max {
            plan(GainStep::RaiseRatePReported, counter, ignore_next)
        } else if c.bounce_under_aggressiveness {
            if !ignore_next {
                hold_plan(counter_up(counter), false)
            } else {
                hold_plan(counter, false)
            }
        } else {
            plan(GainStep::LowerRateD, counter_down(counter), true)
        },
        TuneType::RatePUp => if c.rate_over_aggressive_target {
            hold_plan(counter_up(counter), true)
        } else if c.rate_under_target && c.rate_over_margin && c.bounce_over_aggressiveness
            && c.d_above_min {
            plan(
                GainStep::LowerRateDAndP { fail_min_d: axis != AxisType::Yaw },
                counter_down(counter),
                ignore_next,
            )
        } else if !ignore_next {
            plan(GainStep::RaiseRateP, counter_down(counter), false)
        } else {
            hold_plan(counter, false)
        },
        TuneType::AnglePDown => if c.angle_under_aggressive_target {
            if !ignore_next {
                hold_plan(counter_up(counter), false)
            } else {
                hold_plan(counter, false)
            }
        } else {
            plan(GainStep::LowerAngleP, counter_down(counter), true)
        },
        TuneType::AnglePUp => if c.angle_over_aggressive_target || (c.angle_over_target
            && c.rate_swung_back) {
            hold_plan(counter_up(counter), true)
        } else if !ignore_next {
            plan(GainStep::RaiseAngleP, counter_down(counter), false)
        } else {
            hold_plan(counter, false)
        },
        TuneType::RateFfUp | TuneType::MaxGains => GainPlan {
            flow_of_control: true,
            ..hold_plan(counter, ignore_next)
        },
        TuneType::TuneCheck => hold_plan(success_count(), ignore_next),
        TuneType::TuneComplete => hold_plan(counter, ignore_next),
    }
}

/// The update's bookkeeping when no limit clamped.
pub open spec fn settled(p: GainPlan) -> UpdateGains {
    UpdateGains {
        success_counter: p.success_counter,
        ignore_next: p.ignore_next,
        reached_limit: false,
        failed: false,
        flow_of_control: p.flow_of_control,
        min_rate_d_limit: false,
        rate_d_failed: false,
        rate_p_failed: false,
        angle_p_failed: false,
        tune_type_complete: p.success_counter >= success_count(),
        mode: TuneMode::Tuning,
    }
}

/// A limit that completes the tune type.
pub open spec fn completed_at_limit(u: UpdateGains) -> UpdateGains {
    UpdateGains {
        success_counter: success_count(),
        reached_limit: true,
        tune_type_complete: true,
        ..u
    }
}

/// A limit that fails the tune.
pub open spec fn failed_at_limit(u: UpdateGains) -> UpdateGains {
    UpdateGains { reached_limit: true, failed: true, mode: TuneMode::Failed, ..u }
}

/// The second half of an update: what the clamped limits mean for the step
/// that was made.
pub open spec fn update_gains_settle_spec(p: GainPlan, k: GainClamps) -> UpdateGains {
    let u = settled(p);
    match p.step {
        GainStep::Hold => u,
        GainStep::LowerRatePThenD => if k.p_clamped && k.d_clamped {
            UpdateGains { min_rate_d_limit: true, ..completed_at_limit(u) }
        } else {
            u
        },
        GainStep::RaiseRatePReported => if k.p_clamped {
            UpdateGains { reached_limit: true, ..u }
        } else {
            u
        },
        GainStep::RaiseRateD => if k.d_clamped {
            completed_at_limit(u)
        } else {
            u
        },
        GainStep::RaiseRateP | GainStep::RaiseAngleP => if k.p_clamped {
            completed_at_limit(u)
        } else {
            u
        },
        GainStep::LowerRateD => if k.d_clamped {
            UpdateGains { min_rate_d_limit: true, ..completed_at_limit(u) }
        } else {
            u
        },
        GainStep::LowerRateDAndP { fail_min_d } => {
            let after_d = if k.d_clamped {
                if fail_min_d {
                    UpdateGains { rate_d_failed: true, ..failed_at_limit(u) }
                } else {
                    UpdateGains { reached_limit: true, ..u }
                }
            } else {
                u
            };
            if k.p_clamped {
                UpdateGains { rate_p_failed: true, failed: true, mode: TuneMode::Failed, ..after_d }
            } else {
                after_d
            }
        },
        GainStep::LowerAngleP => if k.p_clamped {
            UpdateGains { angle_p_failed: true, ..failed_at_limit(u) }
        } else {
            u
        },
    }
}

/// Whether the first half counts the twitch as a success, raising the
/// counter: a bounce or overshoot that the tune type counts, or a clean
/// twitch counted while no mark is set.
pub open spec fn plan_counts_success(tune_type: TuneType, ignore_next: bool, c: TwitchComparison) -> bool {
    match tune_type {
        TuneType::RateDUp => !c.rate_over_target && !(c.rate_under_margin && c.p_within_max)
            && c.bounce_over_aggressiveness,
        TuneType::RateDDown => !c.rate_over_target && !(c.rate_under_margin && c.p_within_max)
            && c.bounce_under_aggressiveness && !ignore_next,
        TuneType::RatePUp => c.rate_over_aggressive_target,
        TuneType::AnglePDown => c.angle_under_aggressive_target && !ignore_next,
        TuneType::AnglePUp => c.angle_over_aggressive_target || (c.angle_over_target
            && c.rate_swung_back),
        _ => false,
    }
}

/// Whether the first half of an update will raise the success counter; a
/// counter already at its maximum cannot be raised.
pub fn update_gains_plan_counts_success(tune_type: TuneType, ignore_next: bool, c: &TwitchComparison) -> (r:
    bool)
    ensures
        r == plan_counts_success(tune_type, ignore_next, *c),
{
    match tune_type {
        TuneType::RateDUp => !c.rate_over_target && !(c.rate_under_margin && c.p_within_max)
            && c.bounce_over_aggressiveness,
        TuneType::RateDDown => !c.rate_over_target && !(c.rate_under_margin && c.p_within_max)
            && c.bounce_under_aggressiveness && !ignore_next,
        TuneType::RatePUp => c.rate_over_aggressive_target,
        TuneType::AnglePDown => c.angle_under_aggressive_target && !ignore_next,
        TuneType::AnglePUp => c.angle_over_aggressive_target || (c.angle_over_target
            && c.rate_swung_back),
        _ => false,
    }
}

fn up(c: i8) -> (r: i8)
    requires
        c < i8::MAX,
    ensures
        r == counter_up(c),
{
    c + 1
}

fn down(c: i8) -> (r: i8)
    ensures
        r == counter_down(c),
{
    if c > 0 {
        c - 1
    } else {
        c
    }
}

/// The first half of a gain update: which gain to step and how the success
/// counter and the ignore mark move, from the twitch's comparisons.
pub fn update_gains_plan(
    tune_type: TuneType,
    axis: AxisType,
    success_counter: i8,
    ignore_next: bool,
    c: &TwitchComparison,
) -> (r: GainPlan)
    requires
        plan_counts_success(tune_type, ignore_next, *c) ==> success_counter < i8::MAX,
    ensures
        r == update_gains_plan_spec(tune_type, axis, success_counter, ignore_next, *c),
        plan_counts_success(tune_type, ignore_next, *c) ==> r.success_counter == success_counter
            + 1,
        tune_type == TuneType::RateDUp ==> r.step == GainStep::Hold || r.step
            == GainStep::LowerRatePThenD || r.step == GainStep::RaiseRatePReported || r.step
            == GainStep::RaiseRateD,
        tune_type == TuneType::RateDDown ==> r.step == GainStep::Hold || r.step
            == GainStep::LowerRatePThenD || r.step == GainStep::RaiseRatePReported || r.step
            == GainStep::LowerRateD,
        tune_type == TuneType::RatePUp ==> r.step == GainStep::Hold || r.step is LowerRateDAndP
            || r.step == GainStep::RaiseRateP,
        tune_type == TuneType::AnglePDown ==> r.step == GainStep::Hold || r.step
            == GainStep::LowerAngleP,
        tune_type == TuneType::AnglePUp ==> r.step == GainStep::Hold || r.step
            == GainStep::RaiseAngleP,
        tune_type == TuneType::RateDDown && !c.rate_over_target && !(c.rate_under_margin
            && c.p_within_max) && !c.bounce_under_aggressiveness ==> r.step == GainStep::LowerRateD
            && r.ignore_next,
        tune_type == TuneType::RateDUp && !c.rate_over_target && !(c.rate_under_margin
            && c.p_within_max) && !c.bounce_over_aggressiveness && !ignore_next ==> r.step
            == GainStep::RaiseRateD && !r.ignore_next,
        tune_type == TuneType::AnglePDown && !c.angle_under_aggressive_target ==> r.step
            == GainStep::LowerAngleP && r.ignore_next,
        r.success_counter <= success_counter || plan_counts_success(tune_type, ignore_next, *c)
            || tune_type == TuneType::TuneCheck,
{
    let hold = GainPlan {
        step: GainStep::Hold,
        success_counter,
        ignore_next,
        flow_of_control: false,
    };
    match tune_type {
        TuneType::RateDUp => {
            if c.rate_over_target {
                GainPlan { step: GainStep::LowerRatePThenD, ..hold }
            } else if c.rate_under_margin && c.p_within_max {
                GainPlan { step: GainStep::RaiseRatePReported, ..hold }
            } else if c.bounce_over_aggressiveness {
                GainPlan { success_counter: up(success_counter), ignore_next: true, ..hold }
            } else if !ignore_next {
                GainPlan {
                    step: GainStep::RaiseRateD,
                    success_counter: down(success_counter),
                    ignore_next: false,
                    ..hold
                }
            } else {
                GainPlan { ignore_next: false, ..hold }
            }
        },
        TuneType::RateDDown => {
            if c.rate_over_target {
                GainPlan { step: GainStep::LowerRatePThenD, ..hold }
            } else if c.rate_under_margin && c.p_within_max {
                GainPlan { step: GainStep::RaiseRatePReported, ..hold }
            } else if c.bounce_under_aggressiveness {
                if !ignore_next {
                    GainPlan { success_counter: up(success_counter), ignore_next: false, ..hold }
                } else {
                    GainPlan { ignore_next: false, ..hold }
                }
            } else {
                GainPlan {
                    step: GainStep::LowerRateD,
                    success_counter: down(success_counter),
                    ignore_next: true,
                    ..hold
                }
            }
        },
        TuneType::RatePUp => {
            if c.rate_over_aggressive_target {
                GainPlan { success_counter: up(success_counter), ignore_next: true, ..hold }
            } else if c.rate_under_target && c.rate_over_margin && c.bounce_over_aggressiveness
                && c.d_above_min {
                GainPlan {
                    step: GainStep::LowerRateDAndP { fail_min_d: rate_p_fail_min_d(axis) },
                    success_counter: down(success_counter),
                    ..hold
                }
            } else if !ignore_next {
                GainPlan {
                    step: GainStep::RaiseRateP,
                    success_counter: down(success_counter),
                    ignore_next: false,
                    ..hold
                }
            } else {
                GainPlan { ignore_next: false, ..hold }
            }
        },
        TuneType::AnglePDown => {
            if c.angle_under_aggressive_target {
                if !ignore_next {
                    GainPlan { success_counter: up(success_counter), ignore_next: false, ..hold }
                } else {
                    GainPlan { ignore_next: false, ..hold }
                }
            } else {
                GainPlan {
                    step: GainStep::LowerAngleP,
                    success_counter: down(success_counter),
                    ignore_next: true,
                    ..hold
                }
            }
        },
        TuneType::AnglePUp => {
            if c.angle_over_aggressive_target || (c.angle_over_target && c.rate_swung_back) {
                GainPlan { success_counter: up(success_counter), ignore_next: true, ..hold }
            } else if !ignore_next {
                GainPlan {
                    step: GainStep::RaiseAngleP,
                    success_counter: down(success_counter),
                    ignore_next: false,
                    ..hold
                }
            } else {
                GainPlan { ignore_next: false, ..hold }
            }
        },
        TuneType::RateFfUp | TuneType::MaxGains => GainPlan { flow_of_control: true, ..hold },
        TuneType::TuneCheck => GainPlan { success_counter: AUTOTUNE_SUCCESS_COUNT as i8, ..hold },
        TuneType::TuneComplete => hold,
    }
}

/// The second half of a gain update: the limit and failure reports, the
/// success counter and the tuner's mode, from which limits clamped the step.
pub fn update_gains_settle(p: &GainPlan, k: GainClamps) -> (r: UpdateGains)
    ensures
        r == update_gains_settle_spec(*p, k),
        r.tune_type_complete == (r.success_counter >= success_count()),
        r.failed == (r.mode == TuneMode::Failed),
{
    let u = UpdateGains {
        success_counter: p.success_counter,
        ignore_next: p.ignore_next,
        reached_limit: false,
        failed: false,
        flow_of_control: p.flow_of_control,
        min_rate_d_limit: false,
        rate_d_failed: false,
        rate_p_failed: false,
        angle_p_failed: false,
        tune_type_complete: p.success_counter >= AUTOTUNE_SUCCESS_COUNT as i8,
        mode: TuneMode::Tuning,
    };
    let complete = UpdateGains {
        success_counter: AUTOTUNE_SUCCESS_COUNT as i8,
        reached_limit: true,
        tune_type_complete: true,
        ..u
    };
    match p.step {
        GainStep::Hold => u,
        GainStep::LowerRatePThenD => {
            if k.p_clamped && k.d_clamped {
                UpdateGains { min_rate_d_limit: true, ..complete }
            } else {
                u
            }
        },
        GainStep::RaiseRatePReported => {
            if k.p_clamped {
                UpdateGains { reached_limit: true, ..u }
            } else {
                u
            }
        },
        GainStep::RaiseRateD => {
            if k.d_clamped {
                complete
            } else {
                u
            }
        },
        GainStep::RaiseRateP | GainStep::RaiseAngleP => {
            if k.p_clamped {
                complete
            } else {
                u
            }
        },
        GainStep::LowerRateD => {
            if k.d_clamped {
                UpdateGains { min_rate_d_limit: true, ..complete }
            } else {
                u
            }
        },
        GainStep::LowerRateDAndP { fail_min_d } => {
            let after_d = if k.d_clamped {
                if fail_min_d {
                    UpdateGains {
                        rate_d_failed: true,
                        reached_limit: true,
                        failed: true,
                        mode: TuneMode::Failed,
                        ..u
                    }
                } else {
                    UpdateGains { reached_limit: true, ..u }
                }
            } else {
                u
            };
            if k.p_clamped {
                UpdateGains {
                    rate_p_failed: true,
                    failed: true,
                    mode: TuneMode::Failed,
                    ..after_d
                }
            } else {
                after_d
            }
        },
        GainStep::LowerAngleP => {
            if k.p_clamped {
                UpdateGains {
                    angle_p_failed: true,
                    reached_limit: true,
                    failed: true,
                    mode: TuneMode::Failed,
                    ..u
                }
            } else {
                u
            }
        },
    }
}

/// From a counter below the success count and not negative, one update leaves
/// the counter between zero and the success count: a success adds one, a
/// reached limit jumps to the count, and nothing takes it below zero.
pub proof fn lemma_counter_stays_in_range(
    tune_type: TuneType,
    axis: AxisType,
    counter: i8,
    ignore_next: bool,
    c: TwitchComparison,
    k: GainClamps,
)
    requires
        0 <= counter < success_count(),
    ensures
        0 <= update_gains_settle_spec(
            update_gains_plan_spec(tune_type, axis, counter, ignore_next, c),
            k,
        ).success_counter <= success_count(),
{
}

/// The tune fails only when a gain is driven down to its floor: only the
/// rate-P-up back-off and the angle-P-down step can fail it.
pub proof fn lemma_failure_only_on_lowering(
    tune_type: TuneType,
    axis: AxisType,
    counter: i8,
    ignore_next: bool,
    c: TwitchComparison,
    k: GainClamps,
)
    ensures
        ({
            let p = update_gains_plan_spec(tune_type, axis, counter, ignore_next, c);
            update_gains_settle_spec(p, k).failed ==> (p.step is LowerRateDAndP || p.step
                is LowerAngleP) && (tune_type == TuneType::RatePUp || tune_type
                == TuneType::AnglePDown)
        }),
{
}

/// The frequency-response check always completes its tune type, and the
/// helicopter-only tune types are reported as a flow-of-control error with
/// the counter, the ignore mark and the gains left as they were.
pub proof fn lemma_check_completes_and_heli_types_change_nothing(
    axis: AxisType,
    counter: i8,
    ignore_next: bool,
    c: TwitchComparison,
    k: GainClamps,
)
    ensures
        update_gains_settle_spec(
            update_gains_plan_spec(TuneType::TuneCheck, axis, counter, ignore_next, c),
            k,
        ).tune_type_complete,
        ({
            let p = update_gains_plan_spec(TuneType::MaxGains, axis, counter, ignore_next, c);
            let u = update_gains_settle_spec(p, k);
            &&& p.step == GainStep::Hold
            &&& u.flow_of_control
            &&& u.success_counter == counter
            &&& u.ignore_next == ignore_next
            &&& !u.failed
        }),
        ({
            let p = update_gains_plan_spec(TuneType::RateFfUp, axis, counter, ignore_next, c);
            let u = update_gains_settle_spec(p, k);
            &&& p.step == GainStep::Hold
            &&& u.flow_of_control
            &&& u.success_counter == counter
            &&& u.ignore_next == ignore_next
            &&& !u.failed
        }),
{
}

/// A twitch marked to be ignored is not counted against the tune: when it
/// falls through to the step that would raise the gain, it only clears the
/// mark, leaving the counter and the gains alone.
pub proof fn lemma_ignored_twitch_only_clears_mark(
    tune_type: TuneType,
    axis: AxisType,
    counter: i8,
    c: TwitchComparison,
)
    requires
        tune_type == TuneType::RateDUp || tune_type == TuneType::RatePUp || tune_type
            == TuneType::AnglePUp,
    ensures
        ({
            let p = update_gains_plan_spec(tune_type, axis, counter, true, c);
            let raise = update_gains_plan_spec(tune_type, axis, counter, false, c);
            (raise.step is RaiseRateD || raise.step is RaiseRateP || raise.step is RaiseAngleP)
                ==> p == hold_plan(counter, false)
        }),
{
}

/// Both rate-D tune types first correct the rate response with P: an
/// overshoot of the target rate lowers P (then D at P's floor), and a rate
/// short of the target less the margin, with P still under its maximum,
/// raises P. Neither moves the counter or the ignore mark.
pub proof fn lemma_rate_d_types_correct_p_first(
    tune_type: TuneType,
    axis: AxisType,
    counter: i8,
    ignore_next: bool,
    c: TwitchComparison,
)
    requires
        tune_type == TuneType::RateDUp || tune_type == TuneType::RateDDown,
    ensures
        ({
            let p = update_gains_plan_spec(tune_type, axis, counter, ignore_next, c);
            &&& c.rate_over_target ==> p.step == GainStep::LowerRatePThenD
            &&& !c.rate_over_target && c.rate_under_margin && c.p_within_max ==> p.step
                == GainStep::RaiseRatePReported
            &&& (c.rate_over_target || (c.rate_under_margin && c.p_within_max)) ==> p.success_counter
                == counter && p.ignore_next == ignore_next
        }),
{
}

/// Rate D down lowers D on a bounce and counts a clean twitch: once the rate
/// is neither over the target nor short of it, a bounce above the
/// aggressiveness lowers D, takes one off a positive counter and marks the
/// next twitch to be ignored; a bounce under it raises nothing, adds one to
/// the counter unless the twitch was marked, and clears the mark. D is never
/// raised, nor P raised by the step that completes the type.
pub proof fn lemma_rate_d_down_lowers_d_on_bounce(
    axis: AxisType,
    counter: i8,
    ignore_next: bool,
    c: TwitchComparison,
)
    ensures
        ({
            let p = update_gains_plan_spec(TuneType::RateDDown, axis, counter, ignore_next, c);
            let rate_on_target = !c.rate_over_target && !(c.rate_under_margin && c.p_within_max);
            &&& p.step != GainStep::RaiseRateD && p.step != GainStep::RaiseRateP
            &&& rate_on_target && !c.bounce_under_aggressiveness ==> {
                &&& p.step == GainStep::LowerRateD
                &&& p.success_counter == (if counter > 0 { counter - 1 } else { counter as int })
                &&& p.ignore_next
            }
            &&& rate_on_target && c.bounce_under_aggressiveness ==> {
                &&& p.step == GainStep::Hold
                &&& !p.ignore_next
                &&& ignore_next ==> p.success_counter == counter
                &&& !ignore_next && counter < i8::MAX ==> p.success_counter == counter + 1
            }
        }),
{
}

/// Rate D up raises D on a clean twitch and counts a bounce: once the rate is
/// on target, a bounce above the aggressiveness adds one to the counter and
/// marks the next twitch; otherwise an unmarked twitch raises D and takes one
/// off a positive counter, and a marked one only clears the mark. D is never
/// lowered by a step of its own.
pub proof fn lemma_rate_d_up_raises_d_when_clean(
    axis: AxisType,
    counter: i8,
    ignore_next: bool,
    c: TwitchComparison,
)
    ensures
        ({
            let p = update_gains_plan_spec(TuneType::RateDUp, axis, counter, ignore_next, c);
            let rate_on_target = !c.rate_over_target && !(c.rate_under_margin && c.p_within_max);
            &&& p.step != GainStep::LowerRateD && !(p.step is LowerRateDAndP)
            &&& rate_on_target && c.bounce_over_aggressiveness ==> {
                &&& p.step == GainStep::Hold
                &&& p.ignore_next
                &&& counter < i8::MAX ==> p.success_counter == counter + 1
            }
            &&& rate_on_target && !c.bounce_over_aggressiveness && !ignore_next ==> {
                &&& p.step == GainStep::RaiseRateD
                &&& p.success_counter == (if counter > 0 { counter - 1 } else { counter as int })
                &&& !p.ignore_next
            }
            &&& rate_on_target && !c.bounce_over_aggressiveness && ignore_next ==> p == hold_plan(
                counter,
                false,
            )
        }),
{
}

/// Rate P up counts an overshoot past the aggressive target and marks the
/// next twitch; backs D and P off on a bounce just short of the target while
/// D is above its floor (a D floor fails the tune except on yaw); and
/// otherwise raises P on an unmarked twitch, taking one off a positive
/// counter. P is never lowered alone and D never raised.
pub proof fn lemma_rate_p_up_steps(axis: AxisType, counter: i8, ignore_next: bool, c: TwitchComparison)
    ensures
        ({
            let p = update_gains_plan_spec(TuneType::RatePUp, axis, counter, ignore_next, c);
            let back_off = c.rate_under_target && c.rate_over_margin && c.bounce_over_aggressiveness
                && c.d_above_min;
            let down = (if counter > 0 { counter - 1 } else { counter as int });
            &&& p.step != GainStep::RaiseRateD && p.step != GainStep::LowerRateD && p.step
                != GainStep::LowerRatePThenD
            &&& c.rate_over_aggressive_target ==> p.step == GainStep::Hold && p.ignore_next && (
            counter < i8::MAX ==> p.success_counter == counter + 1)
            &&& !c.rate_over_aggressive_target && back_off ==> p.step == (GainStep::LowerRateDAndP {
                fail_min_d: axis != AxisType::Yaw,
            }) && p.success_counter == down && p.ignore_next == ignore_next
            &&& !c.rate_over_aggressive_target && !back_off && !ignore_next ==> p.step
                == GainStep::RaiseRateP && p.success_counter == down && !p.ignore_next
        }),
{
}

/// Angle P down lowers P whenever the angle went past the aggressive target,
/// taking one off a positive counter and marking the next twitch; a twitch
/// within it adds one unless marked. Angle P up raises P on an unmarked
/// twitch that neither overshot nor swung back, and counts one that did.
/// Neither ever steps the other way.
pub proof fn lemma_angle_p_steps(axis: AxisType, counter: i8, ignore_next: bool, c: TwitchComparison)
    ensures
        ({
            let pd = update_gains_plan_spec(TuneType::AnglePDown, axis, counter, ignore_next, c);
            let pu = update_gains_plan_spec(TuneType::AnglePUp, axis, counter, ignore_next, c);
            let down = (if counter > 0 { counter - 1 } else { counter as int });
            let counted_up = c.angle_over_aggressive_target || (c.angle_over_target
                && c.rate_swung_back);
            &&& pd.step != GainStep::RaiseAngleP && pu.step != GainStep::LowerAngleP
            &&& !c.angle_under_aggressive_target ==> pd.step == GainStep::LowerAngleP
                && pd.success_counter == down && pd.ignore_next
            &&& c.angle_under_aggressive_target ==> pd.step == GainStep::Hold && !pd.ignore_next
                && (!ignore_next && counter < i8::MAX ==> pd.success_counter == counter + 1) && (
            ignore_next ==> pd.success_counter == counter)
            &&& counted_up ==> pu.step == GainStep::Hold && pu.ignore_next && (counter < i8::MAX
                ==> pu.success_counter == counter + 1)
            &&& !counted_up && !ignore_next ==> pu.step == GainStep::RaiseAngleP
                && pu.success_counter == down && !pu.ignore_next
        }),
{
}

/// What a reached limit means for the step that hit it: a raising step that
/// reaches its ceiling (D for rate D up; P for rate P up and angle P up)
/// completes the tune type with a full counter; rate D down reaching the D
/// floor completes it too and reports the floor; angle P reaching its floor,
/// or rate P reaching its floor in a back-off, fails the tune. A step that
/// hits no limit, and a step that changes no gain, reports nothing and keeps
/// the counter the first half left.
pub proof fn lemma_limits_complete_or_fail(p: GainPlan, k: GainClamps)
    ensures
        ({
            let u = update_gains_settle_spec(p, k);
            &&& (p.step == GainStep::RaiseRateD && k.d_clamped) || ((p.step == GainStep::RaiseRateP
                || p.step == GainStep::RaiseAngleP) && k.p_clamped) ==> u.tune_type_complete
                && u.reached_limit && u.success_counter == success_count() && !u.failed
            &&& p.step == GainStep::LowerRateD && k.d_clamped ==> u.tune_type_complete
                && u.min_rate_d_limit && !u.failed
            &&& p.step == GainStep::LowerAngleP && k.p_clamped ==> u.failed && u.angle_p_failed
                && u.mode == TuneMode::Failed
            &&& p.step is LowerRateDAndP && k.p_clamped ==> u.failed && u.rate_p_failed && u.mode
                == TuneMode::Failed
            &&& (p.step == GainStep::Hold || (!k.p_clamped && !k.d_clamped)) ==> !u.failed
                && !u.reached_limit && u.success_counter == p.success_counter && u.mode
                == TuneMode::Tuning
        }),
{
}

} // verus!
