//! Precision landing as a landing mode sees it: which landing runner fires,
//! how the precision-landing state machine's answer is acted on, how a retry
//! position is flown, and when a live target holds or slows the descent.
//!
//! The state machine itself, the retry positions and the descent speeds are
//! worked out by the caller; what is decided here is what each outcome means
//! for the mode.

use vstd::prelude::*;
use crate::land_horizontal::{land_cancelled_by_throttle, THR_BEHAVE_HIGH_THROTTLE_CANCELS_LAND};

verus! {

/// Which landing runner a landing uses.
#[derive(Debug, Clone, Copy, PartialEq, Eq, Structural)]
pub enum LandOrPrecland {
    /// The normal horizontal and vertical pair.
    Normal {
        /// The pause passed on to it.
        pause_descent: bool,
    },
    /// The precision-landing runner, which owns pausing from here.
    PrecLand,
}

/// A paused descent and a disabled precision landing both run the normal pair
/// (a pause must not start the retry machine); only an enabled, unpaused
/// landing runs precision landing.
pub fn land_run_normal_or_precland(pause_descent: bool, precland_enabled: bool) -> (r: LandOrPrecland)
    ensures
        (pause_descent || !precland_enabled) ==> r == (LandOrPrecland::Normal { pause_descent }),
        (!pause_descent && precland_enabled) ==> r == LandOrPrecland::PrecLand,
{
    if pause_descent || !precland_enabled {
        LandOrPrecland::Normal { pause_descent }
    } else {
        LandOrPrecland::PrecLand
    }
}

/// The state of the precision-landing state machine.
#[derive(Debug, Clone, Copy, PartialEq, Eq, Structural)]
pub enum PrecLandStatus {
    /// Retrying from a retry position.
    Retrying,
    /// Out of retries: failsafe measures.
    Failsafe,
    /// An internal error.
    Error,
    /// Descending normally.
    Descend,
}

/// What the failsafe measures ask for.
#[derive(Debug, Clone, Copy, PartialEq, Eq, Structural)]
pub enum PrecLandFailSafeAction {
    /// Keep descending.
    Descend,
    /// Hold position.
    HoldPos,
}

/// One step of the state machine, as the mode reads it.
#[derive(Debug, Clone, Copy, PartialEq, Eq, Structural)]
pub struct PrecLandUpdate {
    /// The state.
    pub status: PrecLandStatus,
    /// Whether "retrying" is to be announced.
    pub need_gcs_retrying: bool,
    /// Whether "retry completed" is to be announced.
    pub need_gcs_retry_completed: bool,
}

/// The failsafe measures, as the mode reads them.
#[derive(Debug, Clone, Copy, PartialEq, Eq, Structural)]
pub struct PrecLandFailsafe {
    /// What they ask for.
    pub action: PrecLandFailSafeAction,
    /// Whether "failsafe measures" is to be announced.
    pub need_gcs_failsafe: bool,
}

/// What the precision-landing runner does this pass.
#[derive(Debug, Clone, Copy, PartialEq, Eq, Structural)]
pub enum PrecLandRunAction {
    /// Fly to the retry position.
    RetryPosition,
    /// The normal horizontal and vertical pair.
    HorizAndVert {
        /// Whether the descent is held.
        pause_descent: bool,
    },
}

/// One pass of the precision-landing runner.
#[derive(Debug, Clone, Copy, PartialEq, Eq, Structural)]
pub struct PrecLandRun {
    /// What runs.
    pub action: PrecLandRunAction,
    /// Whether an internal error is reported (and the descent goes on).
    pub need_internal_error: bool,
    /// Whether "retrying" is announced.
    pub need_gcs_retrying: bool,
    /// Whether "retry completed" is announced.
    pub need_gcs_retry_completed: bool,
    /// Whether "failsafe measures" is announced.
    pub need_gcs_failsafe: bool,
}

/// Whether the runner steps the state machine: not while the pilot is
/// repositioning, so that a later release does not inherit a retry that was
/// never flown.
pub fn precland_steps_machine(land_repo_active: bool) -> (r: bool)
    ensures
        r == !land_repo_active,
{
    !land_repo_active
}

/// What the runner does: a repositioning pilot owns the landing and gets a
/// plain descent; otherwise the state machine's answer decides. An error is
/// reported and then descends.
pub open spec fn precland_outcome(
    land_repo_active: bool,
    update: PrecLandUpdate,
    failsafe: PrecLandFailsafe,
) -> PrecLandRun {
    if land_repo_active {
        PrecLandRun {
            action: PrecLandRunAction::HorizAndVert { pause_descent: false },
            need_internal_error: false,
            need_gcs_retrying: false,
            need_gcs_retry_completed: false,
            need_gcs_failsafe: false,
        }
    } else {
        PrecLandRun {
            action: match update.status {
                PrecLandStatus::Retrying => PrecLandRunAction::RetryPosition,
                PrecLandStatus::Failsafe => PrecLandRunAction::HorizAndVert {
                    pause_descent: failsafe.action == PrecLandFailSafeAction::HoldPos,
                },
                _ => PrecLandRunAction::HorizAndVert { pause_descent: false },
            },
            need_internal_error: update.status == PrecLandStatus::Error,
            need_gcs_retrying: update.need_gcs_retrying,
            need_gcs_retry_completed: update.need_gcs_retry_completed,
            need_gcs_failsafe: update.status == PrecLandStatus::Failsafe
                && failsafe.need_gcs_failsafe,
        }
    }
}

/// One pass of the precision-landing runner, given the state machine's step
/// (ignored when the pilot owns the landing) and its failsafe measures
/// (read only in the failsafe state).
pub fn precland_run(
    land_repo_active: bool,
    update: &PrecLandUpdate,
    failsafe: &PrecLandFailsafe,
) -> (r: PrecLandRun)
    ensures
        r == precland_outcome(land_repo_active, *update, *failsafe),
{
    if land_repo_active {
        return PrecLandRun {
            action: PrecLandRunAction::HorizAndVert { pause_descent: false },
            need_internal_error: false,
            need_gcs_retrying: false,
            need_gcs_retry_completed: false,
            need_gcs_failsafe: false,
        };
    }
    match update.status {
        PrecLandStatus::Retrying => PrecLandRun {
            action: PrecLandRunAction::RetryPosition,
            need_internal_error: false,
            need_gcs_retrying: update.need_gcs_retrying,
            need_gcs_retry_completed: update.need_gcs_retry_completed,
            need_gcs_failsafe: false,
        },
        PrecLandStatus::Failsafe => {
            let pause_descent = match failsafe.action {
                PrecLandFailSafeAction::Descend => false,
                PrecLandFailSafeAction::HoldPos => true,
            };
            PrecLandRun {
                action: PrecLandRunAction::HorizAndVert { pause_descent },
                need_internal_error: false,
                need_gcs_retrying: update.need_gcs_retrying,
                need_gcs_retry_completed: update.need_gcs_retry_completed,
                need_gcs_failsafe: failsafe.need_gcs_failsafe,
            }
        },
        PrecLandStatus::Error => PrecLandRun {
            action: PrecLandRunAction::HorizAndVert { pause_descent: false },
            need_internal_error: true,
            need_gcs_retrying: update.need_gcs_retrying,
            need_gcs_retry_completed: update.need_gcs_retry_completed,
            need_gcs_failsafe: false,
        },
        PrecLandStatus::Descend => PrecLandRun {
            action: PrecLandRunAction::HorizAndVert { pause_descent: false },
            need_internal_error: false,
            need_gcs_retrying: update.need_gcs_retrying,
            need_gcs_retry_completed: update.need_gcs_retry_completed,
            need_gcs_failsafe: false,
        },
    }
}

/// Only the failsafe measures can hold the descent, and only with a hold; a
/// repositioning pilot, an error, a retry or a normal descent never do.
pub proof fn lemma_only_failsafe_holds(
    land_repo_active: bool,
    update: PrecLandUpdate,
    failsafe: PrecLandFailsafe,
)
    ensures
        precland_outcome(land_repo_active, update, failsafe).action == (PrecLandRunAction::HorizAndVert {
            pause_descent: true,
        }) <==> (!land_repo_active && update.status == PrecLandStatus::Failsafe
            && failsafe.action == PrecLandFailSafeAction::HoldPos),
{
}

/// What the retry-position flight reads.
#[derive(Debug, Clone, Copy, PartialEq, Eq, Structural)]
pub struct PrecLandRetryView {
    /// Whether the pilot's input is valid.
    pub has_valid_input: bool,
    /// The throttle-behaviour parameter.
    pub throttle_behavior: i32,
    /// Whether the filtered throttle is above the landing-cancel trigger.
    pub throttle_above_cancel_trigger: bool,
    /// Whether landing repositioning is enabled.
    pub land_repositioning: bool,
    /// Whether the pilot's roll or pitch lean is non-zero.
    pub pilot_leaning: bool,
    /// Whether the pilot was already repositioning.
    pub land_repo_active: bool,
}

/// One pass of flying to a retry position. Position, speed and acceleration
/// handed to the controller are the caller's; the controllers always run.
#[derive(Debug, Clone, Copy, PartialEq, Eq, Structural)]
pub struct PrecLandRetry {
    /// Whether a high throttle cancels the landing (Loiter, else AltHold).
    pub cancel: bool,
    /// Whether the pilot is repositioning afterwards.
    pub land_repo_active: bool,
    /// Whether this is the first pass of repositioning, which is logged.
    pub need_log_repo_active: bool,
    /// Whether the cancel is logged.
    pub need_log_cancel: bool,
    /// The horizontal controller runs.
    pub update_ne: bool,
    /// The vertical controller runs.
    pub update_d: bool,
    /// The attitude controller runs.
    pub attitude: bool,
}

/// Flying to a retry position. A leaning pilot takes over (and letting go
/// does not hand back on this path); a high throttle cancels.
pub fn precland_retry_position(view: &PrecLandRetryView) -> (r: PrecLandRetry)
    ensures
        r.cancel == (view.has_valid_input && (view.throttle_behavior & THR_BEHAVE_HIGH_THROTTLE_CANCELS_LAND) != 0
            && view.throttle_above_cancel_trigger),
        r.need_log_cancel == r.cancel,
        r.land_repo_active == (view.land_repo_active || (view.has_valid_input
            && view.land_repositioning && view.pilot_leaning)),
        r.need_log_repo_active == (!view.land_repo_active && view.has_valid_input
            && view.land_repositioning && view.pilot_leaning),
        r.update_ne && r.update_d && r.attitude,
{
    let cancel = land_cancelled_by_throttle(
        view.throttle_behavior,
        view.throttle_above_cancel_trigger,
        view.has_valid_input,
    );
    let mut land_repo_active = view.land_repo_active;
    let mut need_log_repo_active = false;
    if view.has_valid_input && view.land_repositioning {
        if view.pilot_leaning {
            if !land_repo_active {
                need_log_repo_active = true;
            }
            land_repo_active = true;
        }
    }
    PrecLandRetry {
        cancel,
        land_repo_active,
        need_log_repo_active,
        need_log_cancel: cancel,
        update_ne: true,
        update_d: true,
        attitude: true,
    }
}

/// Whether the vertical precision-landing override is live: the pilot is not
/// repositioning, a target is acquired, and the horizontal controller is
/// navigating.
pub fn doing_precision_landing(land_repo_active: bool, target_acquired: bool, navigating: bool) -> (r:
    bool)
    ensures
        r == (!land_repo_active && target_acquired && navigating),
{
    !land_repo_active && target_acquired && navigating
}

/// What the vertical override does to the descent.
#[derive(Debug, Clone, Copy, PartialEq, Eq, Structural)]
pub enum PrecLandDescentOverride {
    /// Leave the descent as it is.
    Keep,
    /// Hold the height: too far from the target to drop.
    Hold,
    /// Near the ground: a slow descent growing with the horizontal error.
    Crawl,
}

/// The vertical override. Paused or not precision landing: keep. Further from
/// the target than the (non-zero) limit: hold. Measured between 0.35 m and 2 m
/// above the target without fast descent: crawl. Otherwise keep. The descent
/// limit's lift is never changed: a hold is not an arrival.
pub fn precland_descent_override(
    pause_descent: bool,
    doing_precision_landing: bool,
    beyond_max_error: bool,
    in_slowdown_band: bool,
    do_fast_descend: bool,
) -> (r: PrecLandDescentOverride)
    ensures
        (pause_descent || !doing_precision_landing) ==> r == PrecLandDescentOverride::Keep,
        (!pause_descent && doing_precision_landing && beyond_max_error) ==> r
            == PrecLandDescentOverride::Hold,
        (!pause_descent && doing_precision_landing && !beyond_max_error && in_slowdown_band
            && !do_fast_descend) ==> r == PrecLandDescentOverride::Crawl,
        (!pause_descent && doing_precision_landing && !beyond_max_error && !(in_slowdown_band
            && !do_fast_descend)) ==> r == PrecLandDescentOverride::Keep,
{
    if pause_descent || !doing_precision_landing {
        return PrecLandDescentOverride::Keep;
    }
    if beyond_max_error {
        PrecLandDescentOverride::Hold
    } else if in_slowdown_band && !do_fast_descend {
        PrecLandDescentOverride::Crawl
    } else {
        PrecLandDescentOverride::Keep
    }
}

} // verus!
