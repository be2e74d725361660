//! What a mode does while the aircraft is on the ground, and what happens on
//! the way out of one. Each decision here drives motors or controllers in the
//! caller; what is returned is the choice.

use vstd::prelude::*;
use crate::spool::{DesiredSpoolState, SpoolState};

verus! {

/// Whether the vehicle is not flying: disarmed, armed but waiting for the
/// pilot's throttle, or landed. Any of the three is reason enough not to run a
/// controller.
pub fn is_disarmed_or_landed(armed: bool, auto_armed: bool, land_complete: bool) -> (r: bool)
    ensures
        r == (!armed || !auto_armed || land_complete),
{
    !armed || !auto_armed || land_complete
}

/// Where the motors are asked to be while a mode holds zero throttle: spooled
/// up for the modes that must keep the rotors turning, else at ground idle.
pub fn zero_throttle_spool(spool_up: bool) -> (r: DesiredSpoolState)
    ensures
        r == (if spool_up { DesiredSpoolState::ThrottleUnlimited } else { DesiredSpoolState::GroundIdle }),
{
    if spool_up {
        DesiredSpoolState::ThrottleUnlimited
    } else {
        DesiredSpoolState::GroundIdle
    }
}

/// How an aircraft is held safely on the ground.
#[derive(Debug, Clone, Copy, PartialEq, Eq, Structural)]
pub struct GroundHandling {
    /// Where the motors should go.
    pub desired_spool: DesiredSpoolState,
    /// Whether the yaw target and rate are reset to the current heading.
    pub reset_yaw_target_and_rate: bool,
}

/// Holding the aircraft on the ground. The integrators are reset by the caller
/// every time; the yaw target only while the motors are stopped or idle, since
/// once they spool the aircraft holds its heading on purpose. Helicopters in
/// Guided and Auto keep the rotor spooled up.
pub fn make_safe_ground_handling(force_throttle_unlimited: bool, spool_state: SpoolState) -> (r:
    GroundHandling)
    ensures
        r.desired_spool == (if force_throttle_unlimited {
            DesiredSpoolState::ThrottleUnlimited
        } else {
            DesiredSpoolState::GroundIdle
        }),
        r.reset_yaw_target_and_rate == (spool_state == SpoolState::ShutDown || spool_state
            == SpoolState::GroundIdle),
{
    GroundHandling {
        desired_spool: if force_throttle_unlimited {
            DesiredSpoolState::ThrottleUnlimited
        } else {
            DesiredSpoolState::GroundIdle
        },
        reset_yaw_target_and_rate: match spool_state {
            SpoolState::ShutDown | SpoolState::GroundIdle => true,
            _ => false,
        },
    }
}

/// Whether leaving a mode seeds the throttle integrator from the pilot's
/// throttle: going from a manual-throttle mode to one that controls throttle
/// itself, armed and in the air.
pub fn smooth_throttle_transition_on_exit(
    old_has_manual_throttle: bool,
    new_has_manual_throttle: bool,
    armed: bool,
    land_complete: bool,
) -> (r: bool)
    ensures
        r == (old_has_manual_throttle && !new_has_manual_throttle && armed && !land_complete),
{
    old_has_manual_throttle && !new_has_manual_throttle && armed && !land_complete
}

/// How the position controller absorbs a jump of the position estimate.
#[derive(Debug, Clone, Copy, PartialEq, Eq, Structural)]
pub enum EkfResetMethod {
    /// 0: move the target with the estimate; the aircraft holds still.
    MoveTarget,
    /// 1: move the vehicle's idea of itself; the target stays put.
    MoveVehicle,
}

/// The reset method the running mode wants.
pub fn ekf_reset_method(move_vehicle_on_ekf_reset: bool) -> (r: EkfResetMethod)
    ensures
        r == (if move_vehicle_on_ekf_reset { EkfResetMethod::MoveVehicle } else { EkfResetMethod::MoveTarget }),
{
    if move_vehicle_on_ekf_reset {
        EkfResetMethod::MoveVehicle
    } else {
        EkfResetMethod::MoveTarget
    }
}

} // verus!
