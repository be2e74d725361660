//! Crash detection: whether the aircraft has been leaning hard and out of
//! control for long enough that it should disarm.
//!
//! The check is a ladder of reasons why the aircraft is not crashed; each one
//! that holds zeroes the counter. The reset is the point: a vehicle that leans
//! for a second, levels, and leans again starts counting again, so two separate
//! wobbles never add up to a disarm. A velocity that cannot be read is no
//! reason, and forcing the flying state is one only while not landing.
//!
//! The angles, speeds and accelerations are compared with their thresholds by
//! the caller; what arrives here is the outcome of each comparison.

use vstd::prelude::*;

verus! {

/// Seconds of continuous crash conditions before disarming.
pub const CRASH_CHECK_TRIGGER_SEC: u16 = 2;

/// Default of the crash-check parameter: enabled.
pub const FS_CRASH_CHECK_DEFAULT: u8 = 1;

/// Iterations of crash conditions needed to disarm: two seconds of loops.
pub fn crash_trigger_count(loop_rate_hz: u16) -> (r: u32)
    ensures
        r == CRASH_CHECK_TRIGGER_SEC * loop_rate_hz,
{
    let secs: u32 = CRASH_CHECK_TRIGGER_SEC as u32;
    assert(secs == 2);
    secs * loop_rate_hz as u32
}

/// What the crash check reads.
#[derive(Debug, Clone, Copy, PartialEq, Eq, Structural)]
pub struct CrashCheckInputs {
    /// Whether the motors are armed.
    pub armed: bool,
    /// Whether the vehicle has landed.
    pub land_complete: bool,
    /// The crash-check parameter; zero disables the check.
    pub fs_crash_check: u8,
    /// Whether standby is active.
    pub standby_active: bool,
    /// Whether the flying state is forced.
    pub force_flying: bool,
    /// Whether the mode is landing.
    pub is_landing: bool,
    /// Whether the mode allows the check (not Acro or Flip).
    pub crash_check_enabled: bool,
    /// Whether the mode is autorotation.
    pub in_autorotate: bool,
    /// Whether the filtered earth-frame acceleration is at or above 3 m/s/s.
    pub accel_at_or_above_max: bool,
    /// Whether the lean from vertical is at or below 15 degrees.
    pub lean_at_or_below_min: bool,
    /// Whether the attitude error is at or below 30 degrees.
    pub att_error_at_or_below_max: bool,
    /// Whether the speed is at or above 10 m/s, when a velocity could be read;
    /// `None` when it could not.
    pub speed_at_or_above_max: Option<bool>,
    /// The counter from the previous pass.
    pub crash_counter: u16,
    /// The main loop rate, in Hz.
    pub loop_rate_hz: u16,
}

impl Default for CrashCheckInputs {
    /// Armed, in the air, the check on, leaning and out of control: the case
    /// that counts towards a disarm.
    fn default() -> (r: CrashCheckInputs)
        ensures
            r == (CrashCheckInputs {
                armed: true,
                land_complete: false,
                fs_crash_check: FS_CRASH_CHECK_DEFAULT,
                standby_active: false,
                force_flying: false,
                is_landing: false,
                crash_check_enabled: true,
                in_autorotate: false,
                accel_at_or_above_max: false,
                lean_at_or_below_min: false,
                att_error_at_or_below_max: false,
                speed_at_or_above_max: None,
                crash_counter: 0,
                loop_rate_hz: 400,
            }),
    {
        CrashCheckInputs {
            armed: true,
            land_complete: false,
            fs_crash_check: FS_CRASH_CHECK_DEFAULT,
            standby_active: false,
            force_flying: false,
            is_landing: false,
            crash_check_enabled: true,
            in_autorotate: false,
            accel_at_or_above_max: false,
            lean_at_or_below_min: false,
            att_error_at_or_below_max: false,
            speed_at_or_above_max: None,
            crash_counter: 0,
            loop_rate_hz: 400,
        }
    }
}

/// What the crash check did.
#[derive(Debug, Clone, Copy, PartialEq, Eq, Structural)]
pub enum CrashCheck {
    /// A reason not to be crashed held; the counter is zero.
    Clear,
    /// Counted, still short of the trigger.
    Accumulating {
        /// The new counter.
        counter: u16,
    },
    /// The trigger is reached; the caller disarms. The counter is not reset.
    Disarm {
        /// The new counter.
        counter: u16,
    },
}

/// The counter a result leaves.
pub open spec fn crash_counter_of(c: CrashCheck) -> u16 {
    match c {
        CrashCheck::Clear => 0,
        CrashCheck::Accumulating { counter } => counter,
        CrashCheck::Disarm { counter } => counter,
    }
}

impl CrashCheck {
    /// The counter to keep for the next pass.
    pub fn counter(self) -> (r: u16)
        ensures
            r == crash_counter_of(self),
    {
        match self {
            CrashCheck::Clear => 0,
            CrashCheck::Accumulating { counter } => counter,
            CrashCheck::Disarm { counter } => counter,
        }
    }

    /// Whether the caller should disarm.
    pub fn should_disarm(self) -> (r: bool)
        ensures
            r == (self is Disarm),
    {
        match self {
            CrashCheck::Disarm { .. } => true,
            _ => false,
        }
    }
}

/// Whether some reason not to be crashed holds.
pub open spec fn crash_excused(inp: CrashCheckInputs) -> bool {
    ||| !inp.armed
    ||| inp.land_complete
    ||| inp.fs_crash_check == 0
    ||| inp.standby_active
    ||| (inp.force_flying && !inp.is_landing)
    ||| !inp.crash_check_enabled
    ||| inp.in_autorotate
    ||| inp.accel_at_or_above_max
    ||| inp.lean_at_or_below_min
    ||| inp.att_error_at_or_below_max
    ||| inp.speed_at_or_above_max == Some(true)
}

/// The counter after one more pass of crash conditions, wrapping at the top.
pub open spec fn next_crash_counter(inp: CrashCheckInputs) -> u16 {
    if inp.crash_counter == u16::MAX {
        0
    } else {
        (inp.crash_counter + 1) as u16
    }
}

/// The crash check: clear when a reason holds; otherwise count, and disarm once
/// the count reaches two seconds of loops.
pub open spec fn crash_outcome(inp: CrashCheckInputs) -> CrashCheck {
    if crash_excused(inp) {
        CrashCheck::Clear
    } else if next_crash_counter(inp) >= CRASH_CHECK_TRIGGER_SEC * inp.loop_rate_hz {
        CrashCheck::Disarm { counter: next_crash_counter(inp) }
    } else {
        CrashCheck::Accumulating { counter: next_crash_counter(inp) }
    }
}

/// One pass of the crash check.
pub fn crash_check(inp: &CrashCheckInputs) -> (r: CrashCheck)
    ensures
        r == crash_outcome(*inp),
        inp.att_error_at_or_below_max ==> r == CrashCheck::Clear,
        inp.lean_at_or_below_min ==> r == CrashCheck::Clear,
        inp.accel_at_or_above_max ==> r == CrashCheck::Clear,
        inp.speed_at_or_above_max == Some(true) ==> r == CrashCheck::Clear,
        !inp.armed || inp.land_complete || inp.fs_crash_check == 0 || inp.standby_active
            || !inp.crash_check_enabled || inp.in_autorotate ==> r == CrashCheck::Clear,
        inp.force_flying && !inp.is_landing ==> r == CrashCheck::Clear,
        r is Disarm ==> inp.armed && !inp.land_complete && !inp.att_error_at_or_below_max
            && !inp.lean_at_or_below_min && !inp.accel_at_or_above_max
            && inp.speed_at_or_above_max != Some(true),
{
    if !inp.armed || inp.land_complete || inp.fs_crash_check == 0 {
        return CrashCheck::Clear;
    }
    if inp.standby_active {
        return CrashCheck::Clear;
    }
    if inp.force_flying && !inp.is_landing {
        return CrashCheck::Clear;
    }
    if !inp.crash_check_enabled {
        return CrashCheck::Clear;
    }
    if inp.in_autorotate {
        return CrashCheck::Clear;
    }
    if inp.accel_at_or_above_max {
        return CrashCheck::Clear;
    }
    if inp.lean_at_or_below_min {
        return CrashCheck::Clear;
    }
    if inp.att_error_at_or_below_max {
        return CrashCheck::Clear;
    }
    if let Some(fast) = inp.speed_at_or_above_max {
        if fast {
            return CrashCheck::Clear;
        }
    }
    let counter = inp.crash_counter.wrapping_add(1);
    if counter as u32 >= crash_trigger_count(inp.loop_rate_hz) {
        CrashCheck::Disarm { counter }
    } else {
        CrashCheck::Accumulating { counter }
    }
}

/// Every pass either zeroes the counter or adds one to it; nothing carries
/// over a reset.
pub proof fn lemma_counter_resets_or_counts(inp: CrashCheckInputs)
    ensures
        crash_excused(inp) <==> crash_outcome(inp) == CrashCheck::Clear,
        crash_counter_of(crash_outcome(inp)) == 0 || crash_counter_of(crash_outcome(inp))
            == next_crash_counter(inp),
{
}

/// A velocity that cannot be read is no reason not to be crashed: it acts as
/// a slow one.
pub proof fn lemma_missing_velocity_is_no_veto(inp: CrashCheckInputs)
    requires
        inp.speed_at_or_above_max is None,
    ensures
        crash_outcome(inp) == crash_outcome(
            CrashCheckInputs { speed_at_or_above_max: Some(false), ..inp },
        ),
{
}

/// Forcing the flying state excuses the aircraft only while it is not landing.
pub proof fn lemma_force_flying_landing_still_checked(inp: CrashCheckInputs)
    requires
        inp.force_flying,
        inp.is_landing,
    ensures
        crash_outcome(inp) == crash_outcome(CrashCheckInputs { force_flying: false, ..inp }),
{
}

/// Starting from a cleared counter, the disarm comes exactly on the pass that
/// completes two seconds of loops, never earlier.
pub proof fn lemma_disarm_needs_full_trigger(inp: CrashCheckInputs)
    requires
        inp.crash_counter < u16::MAX,
    ensures
        crash_outcome(inp) is Disarm ==> inp.crash_counter + 1 >= 2 * inp.loop_rate_hz,
{
}

/// Each reason not to be crashed clears the counter on its own: an attitude
/// error within the deviation limit (the aircraft is following its target),
/// a lean within the minimum, a large acceleration, a high speed, being
/// disarmed, landed, in standby, in a mode without the check or in
/// autorotation, the check turned off, or the flying state forced outside a
/// landing. With none of them, the pass counts one more loop of crash
/// conditions.
pub proof fn lemma_each_reason_clears(inp: CrashCheckInputs)
    ensures
        inp.att_error_at_or_below_max ==> crash_outcome(inp) == CrashCheck::Clear,
        inp.lean_at_or_below_min ==> crash_outcome(inp) == CrashCheck::Clear,
        inp.accel_at_or_above_max ==> crash_outcome(inp) == CrashCheck::Clear,
        inp.speed_at_or_above_max == Some(true) ==> crash_outcome(inp) == CrashCheck::Clear,
        !inp.armed ==> crash_outcome(inp) == CrashCheck::Clear,
        inp.land_complete ==> crash_outcome(inp) == CrashCheck::Clear,
        inp.fs_crash_check == 0 ==> crash_outcome(inp) == CrashCheck::Clear,
        inp.standby_active ==> crash_outcome(inp) == CrashCheck::Clear,
        !inp.crash_check_enabled ==> crash_outcome(inp) == CrashCheck::Clear,
        inp.in_autorotate ==> crash_outcome(inp) == CrashCheck::Clear,
        inp.force_flying && !inp.is_landing ==> crash_outcome(inp) == CrashCheck::Clear,
        (inp.armed && !inp.land_complete && inp.fs_crash_check != 0 && !inp.standby_active
            && !(inp.force_flying && !inp.is_landing) && inp.crash_check_enabled
            && !inp.in_autorotate && !inp.accel_at_or_above_max && !inp.lean_at_or_below_min
            && !inp.att_error_at_or_below_max && inp.speed_at_or_above_max != Some(true)
            && inp.crash_counter < u16::MAX) ==> crash_outcome(inp) != CrashCheck::Clear
            && crash_counter_of(crash_outcome(inp)) == inp.crash_counter + 1,
{
}

} // verus!
