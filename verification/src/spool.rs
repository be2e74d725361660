//! Motor spool states as the vehicle code reads and commands them, and the
//! integrator reset a manual-throttle mode asks for on the ground.

use vstd::prelude::*;

verus! {

/// Where the motors are along the spool ramp.
///
/// This is the aircraft's answer to "where are the motors", which lags
/// whatever the vehicle code last commanded while the ramp runs.
#[derive(Debug, Clone, Copy, PartialEq, Eq, Structural)]
pub enum SpoolState {
    /// Stopped.
    ShutDown,
    /// Turning at idle on the ground.
    GroundIdle,
    /// Running up towards full authority.
    SpoolingUp,
    /// Full throttle range available.
    ThrottleUnlimited,
    /// Running down towards idle.
    SpoolingDown,
}

/// Where the vehicle code asks the motors to go.
#[derive(Debug, Clone, Copy, PartialEq, Eq, Structural)]
pub enum DesiredSpoolState {
    /// Stop the motors.
    ShutDown,
    /// Idle on the ground.
    GroundIdle,
    /// Full throttle range.
    ThrottleUnlimited,
}

/// How the rate controller's integrators are reset on the ground.
#[derive(Debug, Clone, Copy, PartialEq, Eq, Structural)]
pub enum RateIReset {
    /// Leave the integrators alone.
    Keep,
    /// Bleed the integrators towards zero.
    Smooth,
    /// Zero the integrators at once.
    Hard,
}

} // verus!
