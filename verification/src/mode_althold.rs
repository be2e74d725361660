//! AltHold's per-state actions: what each state of the altitude-hold machine
//! does to the rate integrators, the yaw target and the vertical controller,
//! and what entering the mode sets up. The lean, yaw-rate and climb-rate
//! demands are real numbers worked out by the caller.

use vstd::prelude::*;
use crate::alt_hold::{
    alt_hold_state, alt_hold_state_spec, AltHoldInputs, AltHoldModeState, ClimbDemand,
};
use crate::spool::{DesiredSpoolState, SpoolState};
use crate::spool::RateIReset;

verus! {

/// What entering AltHold does. The pilot's speed and acceleration limits go
/// to both the maximum and the correction setters.
#[derive(Debug, Clone, Copy, PartialEq, Eq, Structural)]
pub struct AltHoldInit {
    /// The vertical controller is set up, only when it was not running (a mode
    /// change mid-climb must not reset a controller that is tracking).
    pub init_d_controller: bool,
    /// The maximum limits are written.
    pub set_max_speed_accel: bool,
    /// The correction limits are written, with the same numbers.
    pub set_correction_speed_accel: bool,
    /// Entry always succeeds.
    pub ok: bool,
}

/// Entering AltHold. The checks flag is not read.
pub fn althold_init(ignore_checks: bool, d_is_active: bool) -> (r: AltHoldInit)
    ensures
        r == (AltHoldInit {
            init_d_controller: !d_is_active,
            set_max_speed_accel: true,
            set_correction_speed_accel: true,
            ok: true,
        }),
{
    AltHoldInit {
        init_d_controller: !d_is_active,
        set_max_speed_accel: true,
        set_correction_speed_accel: true,
        ok: true,
    }
}

/// What the vertical controller does in a state.
#[derive(Debug, Clone, Copy, PartialEq, Eq, Structural)]
pub enum AltHoldVertical {
    /// Relax to zero: motors stopped or landed.
    Relax,
    /// Run the pilot takeoff.
    Takeoff,
    /// Follow the climb rate.
    ClimbRate,
}

/// What one AltHold state does.
#[derive(Debug, Clone, Copy, PartialEq, Eq, Structural)]
pub struct AltHoldStateActions {
    /// Reset of the rate integrators.
    pub reset_rate_i: RateIReset,
    /// Whether the yaw target and rate are reset.
    pub reset_yaw_target_and_rate: bool,
    /// Whether that reset includes the rate (not with the motors stopped).
    pub reset_yaw_rate: bool,
    /// The vertical controller.
    pub vertical: AltHoldVertical,
    /// Whether the takeoff helper is started (taking off and not yet
    /// running).
    pub start_takeoff: bool,
}

/// The actions of a state: stopped motors reset hard and relax; ground idle
/// resets smoothly, resets yaw and relaxes; before takeoff the integrators
/// bleed and the controller relaxes; a takeoff runs the helper (starting it if
/// idle); flying follows the climb rate.
pub open spec fn althold_actions(state: AltHoldModeState, takeoff_running: bool) -> AltHoldStateActions {
    match state {
        AltHoldModeState::MotorStopped => AltHoldStateActions {
            reset_rate_i: RateIReset::Hard,
            reset_yaw_target_and_rate: true,
            reset_yaw_rate: false,
            vertical: AltHoldVertical::Relax,
            start_takeoff: false,
        },
        AltHoldModeState::LandedGroundIdle => AltHoldStateActions {
            reset_rate_i: RateIReset::Smooth,
            reset_yaw_target_and_rate: true,
            reset_yaw_rate: true,
            vertical: AltHoldVertical::Relax,
            start_takeoff: false,
        },
        AltHoldModeState::LandedPreTakeoff => AltHoldStateActions {
            reset_rate_i: RateIReset::Smooth,
            reset_yaw_target_and_rate: false,
            reset_yaw_rate: false,
            vertical: AltHoldVertical::Relax,
            start_takeoff: false,
        },
        AltHoldModeState::Takeoff => AltHoldStateActions {
            reset_rate_i: RateIReset::Keep,
            reset_yaw_target_and_rate: false,
            reset_yaw_rate: false,
            vertical: AltHoldVertical::Takeoff,
            start_takeoff: !takeoff_running,
        },
        AltHoldModeState::Flying => AltHoldStateActions {
            reset_rate_i: RateIReset::Keep,
            reset_yaw_target_and_rate: false,
            reset_yaw_rate: false,
            vertical: AltHoldVertical::ClimbRate,
            start_takeoff: false,
        },
    }
}

/// The actions of an AltHold state.
pub fn althold_state_actions(state: AltHoldModeState, takeoff_running: bool) -> (r:
    AltHoldStateActions)
    ensures
        r == althold_actions(state, takeoff_running),
{
    match state {
        AltHoldModeState::MotorStopped => AltHoldStateActions {
            reset_rate_i: RateIReset::Hard,
            reset_yaw_target_and_rate: true,
            reset_yaw_rate: false,
            vertical: AltHoldVertical::Relax,
            start_takeoff: false,
        },
        AltHoldModeState::LandedGroundIdle => AltHoldStateActions {
            reset_rate_i: RateIReset::Smooth,
            reset_yaw_target_and_rate: true,
            reset_yaw_rate: true,
            vertical: AltHoldVertical::Relax,
            start_takeoff: false,
        },
        AltHoldModeState::LandedPreTakeoff => AltHoldStateActions {
            reset_rate_i: RateIReset::Smooth,
            reset_yaw_target_and_rate: false,
            reset_yaw_rate: false,
            vertical: AltHoldVertical::Relax,
            start_takeoff: false,
        },
        AltHoldModeState::Takeoff => AltHoldStateActions {
            reset_rate_i: RateIReset::Keep,
            reset_yaw_target_and_rate: false,
            reset_yaw_rate: false,
            vertical: AltHoldVertical::Takeoff,
            start_takeoff: !takeoff_running,
        },
        AltHoldModeState::Flying => AltHoldStateActions {
            reset_rate_i: RateIReset::Keep,
            reset_yaw_target_and_rate: false,
            reset_yaw_rate: false,
            vertical: AltHoldVertical::ClimbRate,
            start_takeoff: false,
        },
    }
}

/// What one pass of AltHold reads. `climb` is the sign of the pilot's climb
/// rate after it is clamped to the pilot's speed limits.
#[derive(Debug, Clone, Copy, PartialEq, Eq, Structural)]
pub struct AltHoldRunView {
    /// Whether the motors are armed.
    pub armed: bool,
    /// Where the motors are.
    pub spool_state: SpoolState,
    /// Whether the takeoff helper is running.
    pub takeoff_running: bool,
    /// Whether the pilot has raised the throttle since arming.
    pub auto_armed: bool,
    /// Whether the vehicle has landed.
    pub land_complete: bool,
    /// Whether a motor interlock gates the output.
    pub using_interlock: bool,
    /// The sign of the clamped climb rate.
    pub climb: ClimbDemand,
}

impl AltHoldRunView {
    /// Armed, in the air, the motors unlimited, no climb.
    pub fn flying() -> (r: AltHoldRunView)
        ensures
            r == (AltHoldRunView {
                armed: true,
                spool_state: SpoolState::ThrottleUnlimited,
                takeoff_running: false,
                auto_armed: true,
                land_complete: false,
                using_interlock: false,
                climb: ClimbDemand::Hold,
            }),
    {
        AltHoldRunView {
            armed: true,
            spool_state: SpoolState::ThrottleUnlimited,
            takeoff_running: false,
            auto_armed: true,
            land_complete: false,
            using_interlock: false,
            climb: ClimbDemand::Hold,
        }
    }
}

/// What one pass of AltHold does. The lean, yaw-rate and climb demands that go
/// with it are the caller's; the vertical controller always runs afterwards.
#[derive(Debug, Clone, Copy, PartialEq, Eq, Structural)]
pub struct AltHoldRun {
    /// The altitude-hold state.
    pub state: AltHoldModeState,
    /// Where the motors are asked to go, if anywhere.
    pub desired_spool: Option<DesiredSpoolState>,
    /// What the state does.
    pub actions: AltHoldStateActions,
    /// The vertical controller runs (always).
    pub update_d_controller: bool,
}

/// The inputs of the altitude-hold machine for a pass.
pub open spec fn althold_inputs(v: AltHoldRunView) -> AltHoldInputs {
    AltHoldInputs {
        armed: v.armed,
        spool_state: v.spool_state,
        takeoff_running: v.takeoff_running,
        auto_armed: v.auto_armed,
        land_complete: v.land_complete,
        using_interlock: v.using_interlock,
        climb: v.climb,
    }
}

/// One pass of AltHold: the altitude-hold machine, then that state's actions.
pub fn althold_run(view: &AltHoldRunView) -> (r: AltHoldRun)
    ensures
        r.state == alt_hold_state_spec(althold_inputs(*view)).state,
        r.desired_spool == alt_hold_state_spec(althold_inputs(*view)).desired_spool,
        r.actions == althold_actions(r.state, view.takeoff_running),
        r.update_d_controller,
{
    let decision = alt_hold_state(
        &AltHoldInputs {
            armed: view.armed,
            spool_state: view.spool_state,
            takeoff_running: view.takeoff_running,
            auto_armed: view.auto_armed,
            land_complete: view.land_complete,
            using_interlock: view.using_interlock,
            climb: view.climb,
        },
    );
    AltHoldRun {
        state: decision.state,
        desired_spool: decision.desired_spool,
        actions: althold_state_actions(decision.state, view.takeoff_running),
        update_d_controller: true,
    }
}

/// The integrators are only ever reset on the ground, and the vertical
/// controller follows the pilot's climb rate only when flying.
pub proof fn lemma_resets_only_on_ground(state: AltHoldModeState, takeoff_running: bool)
    ensures
        althold_actions(state, takeoff_running).reset_rate_i != RateIReset::Keep <==> (state
            == AltHoldModeState::MotorStopped || state == AltHoldModeState::LandedGroundIdle
            || state == AltHoldModeState::LandedPreTakeoff),
        althold_actions(state, takeoff_running).vertical == AltHoldVertical::ClimbRate <==> state
            == AltHoldModeState::Flying,
{
}

} // verus!
