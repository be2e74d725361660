//! Pilot control during a landing: how much of the aircraft the pilot gets
//! while it descends.

use vstd::prelude::*;

verus! {

/// Throttle-behaviour bit: a high throttle cancels a landing.
pub const THR_BEHAVE_HIGH_THROTTLE_CANCELS_LAND: i32 = 2;

/// Whether raising the throttle abandons the landing. It is opt-in through the
/// throttle-behaviour bit, needs valid pilot input, and reads the filtered
/// throttle: `throttle_above_trigger` says whether that filtered input is above
/// 700 of its 1000.
pub fn land_cancelled_by_throttle(
    throttle_behavior: i32,
    throttle_above_trigger: bool,
    has_valid_input: bool,
) -> (r: bool)
    ensures
        r == (has_valid_input && (throttle_behavior & THR_BEHAVE_HIGH_THROTTLE_CANCELS_LAND) != 0
            && throttle_above_trigger),
{
    if !has_valid_input {
        return false;
    }
    (throttle_behavior & THR_BEHAVE_HIGH_THROTTLE_CANCELS_LAND) != 0 && throttle_above_trigger
}

/// Where a cancelled landing goes.
#[derive(Debug, Clone, Copy, PartialEq, Eq, Structural)]
pub enum LandCancelDestination {
    /// Loiter, the first choice: it holds position as well as height.
    Loiter,
    /// AltHold, when Loiter is refused.
    AltHold,
}

/// Loiter if it accepts the aircraft, else AltHold.
pub fn land_cancel_destination(loiter_accepted: bool) -> (r: LandCancelDestination)
    ensures
        r == (if loiter_accepted { LandCancelDestination::Loiter } else { LandCancelDestination::AltHold }),
{
    if loiter_accepted {
        LandCancelDestination::Loiter
    } else {
        LandCancelDestination::AltHold
    }
}

/// What the pilot's repositioning does to the landing.
#[derive(Debug, Clone, Copy, PartialEq, Eq, Structural)]
pub enum RepositionState {
    /// The pilot is moving the aircraft; precision landing must not fight
    /// them.
    PilotRepositioning,
    /// The pilot has let go and precision landing may take over again.
    ReleasedToPrecland,
    /// No change.
    Unchanged,
}

/// The repositioning state after one pass. Letting go is not giving back:
/// precision landing resumes only where the operator allowed it.
pub fn reposition_state(
    land_repositioning_enabled: bool,
    has_valid_input: bool,
    pilot_velocity_is_zero: bool,
    allow_precland_after_reposition: bool,
) -> (r: RepositionState)
    ensures
        (!has_valid_input || !land_repositioning_enabled) ==> r == RepositionState::Unchanged,
        (has_valid_input && land_repositioning_enabled && !pilot_velocity_is_zero) ==> r
            == RepositionState::PilotRepositioning,
        (has_valid_input && land_repositioning_enabled && pilot_velocity_is_zero) ==> r == (
        if allow_precland_after_reposition {
            RepositionState::ReleasedToPrecland
        } else {
            RepositionState::Unchanged
        }),
{
    if !has_valid_input || !land_repositioning_enabled {
        return RepositionState::Unchanged;
    }
    if !pilot_velocity_is_zero {
        return RepositionState::PilotRepositioning;
    }
    if allow_precland_after_reposition {
        return RepositionState::ReleasedToPrecland;
    }
    RepositionState::Unchanged
}

/// Whether precision landing drives the horizontal controller: a target is
/// acquired and the pilot is not repositioning, who wins.
pub fn precision_landing_active(land_repo_active: bool, target_acquired: bool) -> (r: bool)
    ensures
        r == (!land_repo_active && target_acquired),
{
    !land_repo_active && target_acquired
}

/// What drives the horizontal landing controller.
#[derive(Debug, Clone, Copy, PartialEq, Eq, Structural)]
pub enum LandHorizontalInput {
    /// The precision-landing target.
    PrecisionTarget,
    /// The pilot's repositioning velocity, or zero.
    VelocityCorrection,
}

/// Exactly one input runs each pass.
pub fn land_horizontal_input(prec_land_active: bool) -> (r: LandHorizontalInput)
    ensures
        r == (if prec_land_active { LandHorizontalInput::PrecisionTarget } else { LandHorizontalInput::VelocityCorrection }),
{
    if prec_land_active {
        LandHorizontalInput::PrecisionTarget
    } else {
        LandHorizontalInput::VelocityCorrection
    }
}

} // verus!
