//! Drift: entering it, and what each motor spool state does to the rate
//! integrators, the yaw target and the landed flag. Drift's throttle is always
//! the assisted pilot throttle, never zeroed by the spool state; the lean, yaw
//! and throttle numbers are real numbers worked out by the caller.

use vstd::prelude::*;
use crate::spool::{RateIReset, SpoolState};

verus! {

/// Mode number of Drift.
pub const MODE_NUMBER_DRIFT: u8 = 11;

/// What entering Drift does: nothing to set up, always succeeds.
#[derive(Debug, Clone, Copy, PartialEq, Eq, Structural)]
pub struct DriftInit {
    /// Always true; the checks flag is not read.
    pub ok: bool,
}

/// Entering Drift.
pub fn drift_init(ignore_checks: bool) -> (r: DriftInit)
    ensures
        r == (DriftInit { ok: true }),
{
    DriftInit { ok: true }
}

/// What a spool state does in Drift.
#[derive(Debug, Clone, Copy, PartialEq, Eq, Structural)]
pub struct DriftSpoolReset {
    /// Reset of the rate integrators.
    pub reset_rate_i: RateIReset,
    /// Whether the yaw target and rate are reset.
    pub reset_yaw_target_and_rate: bool,
    /// Whether that reset includes the rate.
    pub reset_yaw_rate: bool,
    /// Whether the landed flag is cleared.
    pub clear_land_complete: bool,
}

/// Stopped: hard reset, yaw target reset without its rate. Idle: smooth reset,
/// yaw target and rate reset. Unlimited: the landed flag is cleared once the
/// throttle is off its lower limit. Spooling: nothing.
pub open spec fn drift_spool(spool_state: SpoolState, throttle_lower_limited: bool) -> DriftSpoolReset {
    match spool_state {
        SpoolState::ShutDown => DriftSpoolReset {
            reset_rate_i: RateIReset::Hard,
            reset_yaw_target_and_rate: true,
            reset_yaw_rate: false,
            clear_land_complete: false,
        },
        SpoolState::GroundIdle => DriftSpoolReset {
            reset_rate_i: RateIReset::Smooth,
            reset_yaw_target_and_rate: true,
            reset_yaw_rate: true,
            clear_land_complete: false,
        },
        SpoolState::ThrottleUnlimited => DriftSpoolReset {
            reset_rate_i: RateIReset::Keep,
            reset_yaw_target_and_rate: false,
            reset_yaw_rate: false,
            clear_land_complete: !throttle_lower_limited,
        },
        _ => DriftSpoolReset {
            reset_rate_i: RateIReset::Keep,
            reset_yaw_target_and_rate: false,
            reset_yaw_rate: false,
            clear_land_complete: false,
        },
    }
}

/// What the spool state does in Drift this pass.
pub fn drift_spool_reset(spool_state: SpoolState, throttle_lower_limited: bool) -> (r: DriftSpoolReset)
    ensures
        r == drift_spool(spool_state, throttle_lower_limited),
{
    match spool_state {
        SpoolState::ShutDown => DriftSpoolReset {
            reset_rate_i: RateIReset::Hard,
            reset_yaw_target_and_rate: true,
            reset_yaw_rate: false,
            clear_land_complete: false,
        },
        SpoolState::GroundIdle => DriftSpoolReset {
            reset_rate_i: RateIReset::Smooth,
            reset_yaw_target_and_rate: true,
            reset_yaw_rate: true,
            clear_land_complete: false,
        },
        SpoolState::ThrottleUnlimited => DriftSpoolReset {
            reset_rate_i: RateIReset::Keep,
            reset_yaw_target_and_rate: false,
            reset_yaw_rate: false,
            clear_land_complete: !throttle_lower_limited,
        },
        SpoolState::SpoolingUp | SpoolState::SpoolingDown => DriftSpoolReset {
            reset_rate_i: RateIReset::Keep,
            reset_yaw_target_and_rate: false,
            reset_yaw_rate: false,
            clear_land_complete: false,
        },
    }
}

} // verus!
