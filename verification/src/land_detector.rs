//! The land detector of a multirotor: whether the aircraft has been still,
//! level and at minimum throttle long enough to count as landed.
//!
//! The landed flag changes only on a real transition, and only a transition
//! zeroes the counter: writing the value it already has leaves the count
//! alone. A vertical speed that cannot be read counts as zero.
//!
//! The thresholds on throttle, lean, attitude error, acceleration, descent
//! rate and rangefinder height are compared by the caller; what arrives here
//! is the outcome of each comparison. The time triggers are counts of loops:
//! one second (three in air mode under manual throttle) to land, a fifth of a
//! second to say the aircraft may have landed. Counted in whole loops, "a
//! fifth of a second at `rate` Hz" is `5 * count >= rate`.

use vstd::prelude::*;
use crate::spool::SpoolState;

verus! {

/// Seconds of settled conditions before the vehicle counts as landed.
pub const LAND_DETECTOR_TRIGGER_SEC: u32 = 1;

/// Seconds in air mode under manual throttle.
pub const LAND_AIRMODE_DETECTOR_TRIGGER_SEC: u32 = 3;

/// Weight on the landing gear, as the detector reads it.
#[derive(Debug, Clone, Copy, PartialEq, Eq, Structural)]
pub enum WowState {
    /// No landing gear: the check passes and the thresholds stay as they are.
    Disabled,
    /// A sensor that does not know: the check passes and the thresholds stay.
    Unknown,
    /// Weight on the wheels: the check passes and the thresholds double.
    Wow,
    /// Wheels in the air: the check fails and the thresholds double.
    NoWow,
}

impl WowState {
    /// Whether the sensor gives a real reading, which doubles the
    /// acceleration and speed thresholds.
    pub fn sensor_known(self) -> (r: bool)
        ensures
            r == (self == WowState::Wow || self == WowState::NoWow),
    {
        match self {
            WowState::Wow | WowState::NoWow => true,
            _ => false,
        }
    }

    /// The weight-on-wheels check: only wheels known to be in the air fail.
    pub fn check(self) -> (r: bool)
        ensures
            r == (self != WowState::NoWow),
    {
        match self {
            WowState::NoWow => false,
            _ => true,
        }
    }
}

/// What the land detector reads.
#[derive(Debug, Clone, Copy, PartialEq, Eq, Structural)]
pub struct LandDetectorInputs {
    /// Whether the motors are armed.
    pub armed: bool,
    /// The landed flag from the previous pass.
    pub land_complete: bool,
    /// Whether the mode is taking off.
    pub is_taking_off: bool,
    /// Whether standby is active.
    pub standby_active: bool,
    /// Whether the throttle output is above half the hover throttle.
    pub throttle_above_non_takeoff: bool,
    /// Where the motors are.
    pub spool_state: SpoolState,
    /// Whether the mode has manual throttle.
    pub has_manual_throttle: bool,
    /// Whether air mode is enabled.
    pub airmode_enabled: bool,
    /// Whether the motors are at their lower throttle limit.
    pub motor_at_lower_limit: bool,
    /// Whether the throttle mix is at its minimum.
    pub throttle_mix_at_min: bool,
    /// Whether the roll and pitch target lean is more than 15 degrees.
    pub large_angle_request: bool,
    /// Whether the attitude error is more than 30 degrees.
    pub large_att_error: bool,
    /// Whether the filtered acceleration is within the (possibly doubled)
    /// still limit.
    pub accel_stationary: bool,
    /// Whether the vertical speed (zero when unreadable) is under the
    /// (possibly doubled) limit.
    pub descent_rate_low: bool,
    /// Whether the rangefinder height is usable.
    pub rangefinder_alt_ok: bool,
    /// Whether the rangefinder height is under two metres.
    pub rangefinder_below_min_alt: bool,
    /// The landing gear.
    pub wow: WowState,
    /// The counter from the previous pass.
    pub land_detector_count: u32,
    /// The main loop rate, in Hz.
    pub loop_rate_hz: u16,
}

impl Default for LandDetectorInputs {
    /// Armed, in the air, every landing condition met: the case that counts
    /// towards landed.
    fn default() -> (r: LandDetectorInputs)
        ensures
            r == (LandDetectorInputs {
                armed: true,
                land_complete: false,
                is_taking_off: false,
                standby_active: false,
                throttle_above_non_takeoff: false,
                spool_state: SpoolState::GroundIdle,
                has_manual_throttle: false,
                airmode_enabled: false,
                motor_at_lower_limit: true,
                throttle_mix_at_min: true,
                large_angle_request: false,
                large_att_error: false,
                accel_stationary: true,
                descent_rate_low: true,
                rangefinder_alt_ok: false,
                rangefinder_below_min_alt: false,
                wow: WowState::Disabled,
                land_detector_count: 0,
                loop_rate_hz: 400,
            }),
    {
        LandDetectorInputs {
            armed: true,
            land_complete: false,
            is_taking_off: false,
            standby_active: false,
            throttle_above_non_takeoff: false,
            spool_state: SpoolState::GroundIdle,
            has_manual_throttle: false,
            airmode_enabled: false,
            motor_at_lower_limit: true,
            throttle_mix_at_min: true,
            large_angle_request: false,
            large_att_error: false,
            accel_stationary: true,
            descent_rate_low: true,
            rangefinder_alt_ok: false,
            rangefinder_below_min_alt: false,
            wow: WowState::Disabled,
            land_detector_count: 0,
            loop_rate_hz: 400,
        }
    }
}

/// What the land detector stored.
#[derive(Debug, Clone, Copy, PartialEq, Eq, Structural)]
pub struct LandDetectorUpdate {
    /// The new landed flag.
    pub land_complete: bool,
    /// The new "may have landed" flag.
    pub land_complete_maybe: bool,
    /// The new counter.
    pub count: u32,
    /// Whether a landed vehicle took off unexpectedly (the caller reports it).
    pub unexpected_takeoff: bool,
}

/// Writing the landed flag: the counter is zeroed only when the flag changes.
pub open spec fn write_land_complete(current: bool, next: bool, count: u32) -> (bool, u32) {
    if current == next {
        (current, count)
    } else {
        (next, 0)
    }
}

fn apply_land_complete(current: bool, next: bool, count: u32) -> (r: (bool, u32))
    ensures
        r == write_land_complete(current, next, count),
{
    if current == next {
        (current, count)
    } else {
        (next, 0)
    }
}

/// Whether the vehicle may have landed: it has, or a fifth of a second of
/// settled loops has passed.
pub open spec fn maybe_landed(land_complete: bool, count: u32, loop_rate_hz: u16) -> bool {
    land_complete || 5 * count >= loop_rate_hz
}

/// Whether the vehicle may have landed: it has, or the settled loops reach a
/// fifth of a second.
pub fn land_complete_maybe(land_complete: bool, count: u32, loop_rate_hz: u16) -> (r: bool)
    ensures
        r == maybe_landed(land_complete, count, loop_rate_hz),
{
    if land_complete {
        return true;
    }
    count as u64 * 5 >= loop_rate_hz as u64
}

fn finish(land_complete: bool, count: u32, loop_rate_hz: u16, unexpected_takeoff: bool) -> (r:
    LandDetectorUpdate)
    ensures
        r == (LandDetectorUpdate {
            land_complete,
            land_complete_maybe: maybe_landed(land_complete, count, loop_rate_hz),
            count,
            unexpected_takeoff,
        }),
{
    LandDetectorUpdate {
        land_complete,
        land_complete_maybe: land_complete_maybe(land_complete, count, loop_rate_hz),
        count,
        unexpected_takeoff,
    }
}

/// A result, with the "may have landed" flag that goes with its flag and
/// count.
pub open spec fn land_update(land_complete: bool, count: u32, loop_rate_hz: u16, unexpected: bool) -> LandDetectorUpdate {
    LandDetectorUpdate {
        land_complete,
        land_complete_maybe: maybe_landed(land_complete, count, loop_rate_hz),
        count,
        unexpected_takeoff: unexpected,
    }
}

/// Whether air mode lengthens the trigger: manual throttle with air mode on.
pub open spec fn land_airmode(inp: LandDetectorInputs) -> bool {
    inp.has_manual_throttle && inp.airmode_enabled
}

/// Whether every landing condition holds this pass.
pub open spec fn land_settled(inp: LandDetectorInputs) -> bool {
    &&& inp.motor_at_lower_limit
    &&& (land_airmode(inp) || inp.throttle_mix_at_min)
    &&& !inp.large_angle_request
    &&& !inp.large_att_error
    &&& inp.accel_stationary
    &&& inp.descent_rate_low
    &&& (!inp.rangefinder_alt_ok || inp.rangefinder_below_min_alt)
    &&& inp.wow != WowState::NoWow
}

/// Loops of settled conditions needed to land.
pub open spec fn land_trigger(inp: LandDetectorInputs) -> int {
    if land_airmode(inp) {
        LAND_AIRMODE_DETECTOR_TRIGGER_SEC * inp.loop_rate_hz
    } else {
        LAND_DETECTOR_TRIGGER_SEC * inp.loop_rate_hz
    }
}

/// One pass of the land detector. Disarmed: landed. Landed: stays landed
/// unless the motors are unlimited at a throttle above half hover outside a
/// takeoff, which is an unexpected takeoff. Standby or any unsettled condition:
/// not landed and the count starts again. Settled: count, and land once the
/// count has reached the trigger.
pub open spec fn land_detector_outcome(inp: LandDetectorInputs) -> LandDetectorUpdate {
    let rate = inp.loop_rate_hz;
    if !inp.armed {
        let w = write_land_complete(inp.land_complete, true, inp.land_detector_count);
        land_update(w.0, w.1, rate, false)
    } else if inp.land_complete {
        if !inp.is_taking_off && inp.throttle_above_non_takeoff && inp.spool_state
            == SpoolState::ThrottleUnlimited {
            land_update(false, 0, rate, true)
        } else {
            land_update(true, inp.land_detector_count, rate, false)
        }
    } else if inp.standby_active || !land_settled(inp) {
        land_update(false, 0, rate, false)
    } else if inp.land_detector_count < land_trigger(inp) {
        land_update(
            false,
            (if inp.land_detector_count == u32::MAX { 0 } else { inp.land_detector_count + 1 }) as u32,
            rate,
            false,
        )
    } else {
        land_update(true, 0, rate, false)
    }
}

/// Loops of settled conditions needed to land: one second of loops, three
/// with air mode on under manual throttle.
pub fn land_trigger_iterations(airmode: bool, loop_rate_hz: u16) -> (r: u64)
    ensures
        r == (if airmode {
            LAND_AIRMODE_DETECTOR_TRIGGER_SEC * loop_rate_hz
        } else {
            LAND_DETECTOR_TRIGGER_SEC * loop_rate_hz
        }),
{
    let trigger_sec: u32 = if airmode {
        LAND_AIRMODE_DETECTOR_TRIGGER_SEC
    } else {
        LAND_DETECTOR_TRIGGER_SEC
    };
    let rate: u64 = loop_rate_hz as u64;
    assert(trigger_sec * rate <= 3 * 65535) by (nonlinear_arith)
        requires
            trigger_sec <= 3,
            rate <= 65535,
    ;
    trigger_sec as u64 * rate
}

/// One pass of the land detector.
pub fn update_land_detector(inp: &LandDetectorInputs) -> (r: LandDetectorUpdate)
    ensures
        r == land_detector_outcome(*inp),
        !inp.armed ==> r.land_complete,
        inp.armed && !inp.land_complete && (inp.standby_active || !inp.motor_at_lower_limit
            || !inp.descent_rate_low || !inp.accel_stationary || inp.large_angle_request
            || inp.large_att_error || (!(inp.has_manual_throttle && inp.airmode_enabled)
            && !inp.throttle_mix_at_min) || (inp.rangefinder_alt_ok
            && !inp.rangefinder_below_min_alt) || inp.wow == WowState::NoWow) ==> !r.land_complete
            && r.count == 0 && !r.unexpected_takeoff,
        inp.armed && !inp.land_complete && r.land_complete ==> inp.motor_at_lower_limit
            && inp.descent_rate_low && inp.accel_stationary && !inp.large_angle_request
            && !inp.large_att_error && !inp.standby_active && inp.wow != WowState::NoWow
            && inp.land_detector_count >= inp.loop_rate_hz,
{
    if !inp.armed {
        let (land_complete, count) = apply_land_complete(
            inp.land_complete,
            true,
            inp.land_detector_count,
        );
        return finish(land_complete, count, inp.loop_rate_hz, false);
    }
    if inp.land_complete {
        if !inp.is_taking_off && inp.throttle_above_non_takeoff && inp.spool_state
            == SpoolState::ThrottleUnlimited {
            let (land_complete, count) = apply_land_complete(true, false, inp.land_detector_count);
            return finish(land_complete, count, inp.loop_rate_hz, true);
        }
        return finish(true, inp.land_detector_count, inp.loop_rate_hz, false);
    }
    if inp.standby_active {
        return finish(false, 0, inp.loop_rate_hz, false);
    }
    let airmode = inp.has_manual_throttle && inp.airmode_enabled;
    let throttle_mix_at_min = airmode || inp.throttle_mix_at_min;
    let rangefinder_check = !inp.rangefinder_alt_ok || inp.rangefinder_below_min_alt;
    let settled = inp.motor_at_lower_limit && throttle_mix_at_min && !inp.large_angle_request
        && !inp.large_att_error && inp.accel_stationary && inp.descent_rate_low
        && rangefinder_check && inp.wow.check();
    if !settled {
        return finish(false, 0, inp.loop_rate_hz, false);
    }
    let trigger: u64 = land_trigger_iterations(airmode, inp.loop_rate_hz);
    if (inp.land_detector_count as u64) < trigger {
        finish(false, inp.land_detector_count.wrapping_add(1), inp.loop_rate_hz, false)
    } else {
        let (land_complete, count) = apply_land_complete(false, true, inp.land_detector_count);
        finish(land_complete, count, inp.loop_rate_hz, false)
    }
}

/// A landed vehicle is also one that may have landed.
pub proof fn lemma_landed_implies_maybe(inp: LandDetectorInputs)
    ensures
        land_detector_outcome(inp).land_complete ==> land_detector_outcome(inp).land_complete_maybe,
{
}

/// Disarming always lands, and keeps the counter when the vehicle was
/// already down.
pub proof fn lemma_disarmed_is_landed(inp: LandDetectorInputs)
    requires
        !inp.armed,
    ensures
        land_detector_outcome(inp).land_complete,
        inp.land_complete ==> land_detector_outcome(inp).count == inp.land_detector_count,
        !inp.land_complete ==> land_detector_outcome(inp).count == 0,
{
}

/// A vehicle in the air becomes landed only from a pass that is settled and
/// whose count has already reached the trigger; the counter then starts again.
pub proof fn lemma_landing_needs_full_count(inp: LandDetectorInputs)
    requires
        inp.armed,
        !inp.land_complete,
        land_detector_outcome(inp).land_complete,
    ensures
        land_settled(inp),
        !inp.standby_active,
        inp.land_detector_count >= land_trigger(inp),
        land_detector_outcome(inp).count == 0,
{
}

/// An armed, landed vehicle stays landed unless it takes off unexpectedly, and
/// then the takeoff is reported.
pub proof fn lemma_landed_stays_landed(inp: LandDetectorInputs)
    requires
        inp.armed,
        inp.land_complete,
    ensures
        !land_detector_outcome(inp).land_complete <==> land_detector_outcome(inp).unexpected_takeoff,
{
}

/// An armed vehicle in the air is not landed after a pass in which any one
/// landing condition fails (standby, motors above their lower limit, still
/// descending, accelerating, a large lean request or attitude error, the
/// throttle mix above its minimum outside air mode under manual throttle, a
/// usable rangefinder reading two metres or more, or wheels known to be in the
/// air), and the count of settled loops starts again from zero.
pub proof fn lemma_unsettled_pass_is_not_landed(inp: LandDetectorInputs)
    requires
        inp.armed,
        !inp.land_complete,
        inp.standby_active || !inp.motor_at_lower_limit || !inp.descent_rate_low
            || !inp.accel_stationary || inp.large_angle_request || inp.large_att_error || (
        !(inp.has_manual_throttle && inp.airmode_enabled) && !inp.throttle_mix_at_min) || (
        inp.rangefinder_alt_ok && !inp.rangefinder_below_min_alt) || inp.wow == WowState::NoWow,
    ensures
        !land_detector_outcome(inp).land_complete,
        land_detector_outcome(inp).count == 0,
        !land_detector_outcome(inp).unexpected_takeoff,
{
}

/// While every landing condition holds, each pass short of the trigger adds
/// one settled loop and does not land; landing needs at least a full second
/// of loops (three in air mode under manual throttle).
pub proof fn lemma_settled_pass_counts_up(inp: LandDetectorInputs)
    requires
        inp.armed,
        !inp.land_complete,
        !inp.standby_active,
        inp.motor_at_lower_limit,
        inp.descent_rate_low,
        inp.accel_stationary,
        !inp.large_angle_request,
        !inp.large_att_error,
        (inp.has_manual_throttle && inp.airmode_enabled) || inp.throttle_mix_at_min,
        !inp.rangefinder_alt_ok || inp.rangefinder_below_min_alt,
        inp.wow != WowState::NoWow,
        inp.land_detector_count < inp.loop_rate_hz,
    ensures
        !land_detector_outcome(inp).land_complete,
        land_detector_outcome(inp).count == inp.land_detector_count + 1,
{
}

} // verus!
