//! Brake, the emergency stop: hold heading, bring the horizontal velocity to
//! zero, hold altitude, with no pilot stick. A pause button can give Brake a
//! timeout, after which the vehicle leaves for Loiter (or AltHold).
//!
//! The speeds and accelerations handed to the controllers are real numbers
//! the caller supplies; what is decided here is what runs, and when the
//! timeout fires. It fires when the elapsed time, on a clock that wraps,
//! reaches the timeout: equality fires. On the ground the timeout is not
//! consulted.

use vstd::prelude::*;
use crate::spool::DesiredSpoolState;

verus! {

/// Mode number of Brake.
pub const MODE_NUMBER_BRAKE: u8 = 17;

/// Mode number of Loiter, the first choice on timeout.
pub const MODE_NUMBER_LOITER: u8 = 5;

/// Mode number of AltHold, taken when Loiter refuses.
pub const MODE_NUMBER_ALT_HOLD: u8 = 2;

/// Reason code of a mode change on the Brake timeout.
pub const MODE_REASON_BRAKE_TIMEOUT: u8 = 12;

/// What Brake reports about itself.
#[derive(Debug, Clone, Copy, PartialEq, Eq, Structural)]
pub struct BrakeModeFlags {
    /// Its mode number.
    pub mode_number: u8,
    /// It needs a position estimate.
    pub requires_position: bool,
    /// It does not fly on the pilot's throttle.
    pub has_manual_throttle: bool,
    /// It cannot be armed in.
    pub allows_arming: bool,
    /// It flies itself.
    pub is_autopilot: bool,
}

/// Brake's flags.
pub fn brake_mode_flags() -> (r: BrakeModeFlags)
    ensures
        r == (BrakeModeFlags {
            mode_number: MODE_NUMBER_BRAKE,
            requires_position: true,
            has_manual_throttle: false,
            allows_arming: false,
            is_autopilot: true,
        }),
{
    BrakeModeFlags {
        mode_number: MODE_NUMBER_BRAKE,
        requires_position: true,
        has_manual_throttle: false,
        allows_arming: false,
        is_autopilot: true,
    }
}

/// What entering Brake does. The horizontal limits are the current ground
/// speed and the braking deceleration; the vertical ones are constants.
#[derive(Debug, Clone, Copy, PartialEq, Eq, Structural)]
pub struct BrakeInit {
    /// The horizontal controller is set up.
    pub init_ne: bool,
    /// The vertical controller is set up, only when it was not running (a
    /// running altitude loop is left alone).
    pub init_d: bool,
    /// The timeout after entry: always cleared.
    pub timeout_ms: u32,
    /// Entry always succeeds.
    pub ok: bool,
}

/// Entering Brake. The checks flag is not used.
pub fn brake_init(d_is_active: bool, ignore_checks: bool) -> (r: BrakeInit)
    ensures
        r == (BrakeInit { init_ne: true, init_d: !d_is_active, timeout_ms: 0, ok: true }),
{
    BrakeInit { init_ne: true, init_d: !d_is_active, timeout_ms: 0, ok: true }
}

/// What one pass of Brake reads.
#[derive(Debug, Clone, Copy, PartialEq, Eq, Structural)]
pub struct BrakeRunView {
    /// Whether the motors are armed.
    pub armed: bool,
    /// Whether the pilot has raised the throttle since arming.
    pub auto_armed: bool,
    /// Whether the vehicle has landed.
    pub land_complete: bool,
    /// Whether the vehicle may have landed.
    pub land_complete_maybe: bool,
    /// The timeout; zero disables it.
    pub timeout_ms: u32,
    /// When the timeout started.
    pub timeout_start_ms: u32,
    /// The clock.
    pub now_ms: u32,
}

impl BrakeRunView {
    /// Armed, in the air, no timeout.
    pub fn flying() -> (r: BrakeRunView)
        ensures
            r == (BrakeRunView {
                armed: true,
                auto_armed: true,
                land_complete: false,
                land_complete_maybe: false,
                timeout_ms: 0,
                timeout_start_ms: 0,
                now_ms: 0,
            }),
    {
        BrakeRunView {
            armed: true,
            auto_armed: true,
            land_complete: false,
            land_complete_maybe: false,
            timeout_ms: 0,
            timeout_start_ms: 0,
            now_ms: 0,
        }
    }
}

/// Where the timeout wants the vehicle.
#[derive(Debug, Clone, Copy, PartialEq, Eq, Structural)]
pub enum BrakeTimeoutExit {
    /// Stay in Brake.
    Stay,
    /// Try Loiter, then AltHold.
    LoiterThenAltHold,
}

/// One pass of Brake. On the flying path the velocity, acceleration, heading
/// rate and climb rate commanded are all zero.
#[derive(Debug, Clone, Copy, PartialEq, Eq, Structural)]
pub struct BrakeRun {
    /// The ground path: safe ground handling, vertical controller relaxed.
    pub safe_ground: bool,
    /// The vertical controller is relaxed (with the ground path).
    pub relax_d: bool,
    /// Where the motors go on the flying path.
    pub desired_spool: Option<DesiredSpoolState>,
    /// The horizontal target is softened for a possible landing.
    pub soften_ne: bool,
    /// The horizontal controller runs.
    pub update_ne: bool,
    /// The vertical controller runs.
    pub update_d: bool,
    /// The timeout.
    pub timeout_exit: BrakeTimeoutExit,
}

/// Whether the vehicle is not flying.
pub fn is_disarmed_or_landed(armed: bool, auto_armed: bool, land_complete: bool) -> (r: bool)
    ensures
        r == (!armed || !auto_armed || land_complete),
{
    !armed || !auto_armed || land_complete
}

/// Milliseconds elapsed since `start_ms`, on a clock that wraps.
pub open spec fn wrapped_elapsed(start_ms: u32, now_ms: u32) -> int {
    if now_ms >= start_ms {
        now_ms - start_ms
    } else {
        now_ms - start_ms + 0x1_0000_0000
    }
}

/// Whether the timeout has elapsed: set, and reached (equality included).
pub open spec fn timeout_elapsed(timeout_ms: u32, start_ms: u32, now_ms: u32) -> bool {
    timeout_ms != 0 && wrapped_elapsed(start_ms, now_ms) >= timeout_ms
}

/// Whether the timeout has elapsed.
pub fn brake_timeout_elapsed(timeout_ms: u32, start_ms: u32, now_ms: u32) -> (r: bool)
    ensures
        r == timeout_elapsed(timeout_ms, start_ms, now_ms),
{
    timeout_ms != 0 && now_ms.wrapping_sub(start_ms) >= timeout_ms
}

/// Starts the timeout: the new start and length. Zero disables it (the start
/// is still written).
pub fn timeout_to_loiter_ms(now_ms: u32, timeout_ms: u32) -> (r: (u32, u32))
    ensures
        r == (now_ms, timeout_ms),
{
    (now_ms, timeout_ms)
}

/// One pass of Brake.
pub open spec fn brake_outcome(v: BrakeRunView) -> BrakeRun {
    if !v.armed || !v.auto_armed || v.land_complete {
        BrakeRun {
            safe_ground: true,
            relax_d: true,
            desired_spool: None,
            soften_ne: false,
            update_ne: false,
            update_d: false,
            timeout_exit: BrakeTimeoutExit::Stay,
        }
    } else {
        BrakeRun {
            safe_ground: false,
            relax_d: false,
            desired_spool: Some(DesiredSpoolState::ThrottleUnlimited),
            soften_ne: v.land_complete_maybe,
            update_ne: true,
            update_d: true,
            timeout_exit: if timeout_elapsed(v.timeout_ms, v.timeout_start_ms, v.now_ms) {
                BrakeTimeoutExit::LoiterThenAltHold
            } else {
                BrakeTimeoutExit::Stay
            },
        }
    }
}

/// One pass of Brake.
pub fn brake_run(view: &BrakeRunView) -> (r: BrakeRun)
    ensures
        r == brake_outcome(*view),
{
    if is_disarmed_or_landed(view.armed, view.auto_armed, view.land_complete) {
        return BrakeRun {
            safe_ground: true,
            relax_d: true,
            desired_spool: None,
            soften_ne: false,
            update_ne: false,
            update_d: false,
            timeout_exit: BrakeTimeoutExit::Stay,
        };
    }
    let timeout_exit = if brake_timeout_elapsed(view.timeout_ms, view.timeout_start_ms, view.now_ms) {
        BrakeTimeoutExit::LoiterThenAltHold
    } else {
        BrakeTimeoutExit::Stay
    };
    BrakeRun {
        safe_ground: false,
        relax_d: false,
        desired_spool: Some(DesiredSpoolState::ThrottleUnlimited),
        soften_ne: view.land_complete_maybe,
        update_ne: true,
        update_d: true,
        timeout_exit,
    }
}

/// A timeout started now with length `t` fires exactly when `t` milliseconds
/// have passed, not one earlier; a zero length never fires.
pub proof fn lemma_timeout_fires_on_equality(now_ms: u32, t: u32, later_ms: u32)
    requires
        later_ms >= now_ms,
    ensures
        timeout_elapsed(t, now_ms, later_ms) <==> (t != 0 && later_ms - now_ms >= t),
        t == 0 ==> !timeout_elapsed(t, now_ms, later_ms),
{
}

/// On the ground Brake never leaves on its timeout, and re-entering Brake
/// clears any timeout left from before.
pub proof fn lemma_ground_and_entry_never_time_out(v: BrakeRunView)
    requires
        !v.armed || !v.auto_armed || v.land_complete,
    ensures
        brake_outcome(v).timeout_exit == BrakeTimeoutExit::Stay,
        !timeout_elapsed(0, v.timeout_start_ms, v.now_ms),
{
}

} // verus!
