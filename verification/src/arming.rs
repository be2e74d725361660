//! The multicopter's arming checks.
//!
//! Every one of these is the last thing between a parameter set someone got
//! wrong and a vehicle with spinning propellers, so each is its own decision
//! returning its own reason rather than being folded into a single predicate.
//! A pilot who is refused arming acts on the message.
//!
//! Where a check compares measured or configured real numbers (a lean angle, a
//! variance, a speed), the comparison arrives here already made, as a `bool`
//! field or argument; what is decided here is the order of the checks and
//! which refusal each failure produces.

use vstd::prelude::*;

verus! {

/// Why a pre-arm check refused.
#[derive(Debug, Clone, Copy, PartialEq, Eq, Structural)]
pub enum ArmRefusal {
    /// The system had not finished booting.
    SystemNotInitialised,
    /// A motor interlock switch and an emergency-stop switch are both assigned.
    InterlockEstopConflict,
    /// The motor interlock switch is enabled.
    MotorInterlockEnabled,
    /// No RC receiver has ever been seen.
    RcNotFound,
    /// The throttle is below the failsafe threshold.
    ThrottleBelowFailsafe,
    /// A battery failsafe is active.
    BatteryFailsafe,
    /// The ground station failsafe is active.
    GcsFailsafeOn,
    /// No usable altitude estimate.
    NeedAltEstimate,
}

impl ArmRefusal {
    /// The message shown to the pilot for this refusal (multirotor wording).
    pub fn message(self) -> (m: &'static str)
        ensures
            m@ == match self {
                ArmRefusal::SystemNotInitialised => "System not initialised"@,
                ArmRefusal::InterlockEstopConflict => "Interlock/E-Stop Conflict"@,
                ArmRefusal::MotorInterlockEnabled => "Motor Interlock Enabled"@,
                ArmRefusal::RcNotFound => "RC not found"@,
                ArmRefusal::ThrottleBelowFailsafe => "Throttle below failsafe"@,
                ArmRefusal::BatteryFailsafe => "Battery failsafe"@,
                ArmRefusal::GcsFailsafeOn => "GCS failsafe on"@,
                ArmRefusal::NeedAltEstimate => "Need Alt Estimate"@,
            },
    {
        match self {
            ArmRefusal::SystemNotInitialised => "System not initialised",
            ArmRefusal::InterlockEstopConflict => "Interlock/E-Stop Conflict",
            ArmRefusal::MotorInterlockEnabled => "Motor Interlock Enabled",
            ArmRefusal::RcNotFound => "RC not found",
            ArmRefusal::ThrottleBelowFailsafe => "Throttle below failsafe",
            ArmRefusal::BatteryFailsafe => "Battery failsafe",
            ArmRefusal::GcsFailsafeOn => "GCS failsafe on",
            ArmRefusal::NeedAltEstimate => "Need Alt Estimate",
        }
    }
}

/// The value of `FS_THR_ENABLE` that turns the throttle failsafe off.
pub const FS_THR_DISABLED: u8 = 0;

/// What the RC and throttle-failsafe state looks like to the check.
#[derive(Debug, Clone, Copy, PartialEq, Eq, Structural)]
pub struct RcFailsafeState {
    /// The operator has not switched the RC check off.
    pub rc_check_enabled: bool,
    /// `FS_THR_ENABLE`.
    pub failsafe_throttle: u8,
    /// An RC receiver has been seen at some point.
    pub has_had_rc_receiver: bool,
    /// An RC override has been received from a ground station.
    pub has_had_rc_override: bool,
    /// The throttle channel's raw radio input, microseconds.
    pub throttle_radio_in: u16,
    /// `FS_THR_VALUE`, the threshold below which the throttle counts as failed.
    pub failsafe_throttle_value: u16,
}

/// The RC throttle-failsafe pre-arm check.
///
/// The failsafe parameter also gates the no-pulses case: a radio that has sent
/// nothing leaves its input at zero, below any threshold. An RC override from a
/// ground station counts as a receiver.
pub fn rc_throttle_failsafe_check(state: &RcFailsafeState) -> (r: Option<ArmRefusal>)
    ensures
        r == (if !state.rc_check_enabled || state.failsafe_throttle == FS_THR_DISABLED {
            None
        } else if !state.has_had_rc_receiver && !state.has_had_rc_override {
            Some(ArmRefusal::RcNotFound)
        } else if state.throttle_radio_in < state.failsafe_throttle_value {
            Some(ArmRefusal::ThrottleBelowFailsafe)
        } else {
            None
        }),
{
    if !state.rc_check_enabled {
        return None;
    }
    if state.failsafe_throttle == FS_THR_DISABLED {
        return None;
    }
    if !state.has_had_rc_receiver && !state.has_had_rc_override {
        return Some(ArmRefusal::RcNotFound);
    }
    if state.throttle_radio_in < state.failsafe_throttle_value {
        return Some(ArmRefusal::ThrottleBelowFailsafe);
    }
    None
}

/// The battery half of the board-voltage checks, gated by the voltage bit of
/// the arming-check mask.
pub fn battery_failsafe_check(voltage_check_enabled: bool, battery_has_failsafed: bool) -> (r:
    Option<ArmRefusal>)
    ensures
        r == (if voltage_check_enabled && battery_has_failsafed {
            Some(ArmRefusal::BatteryFailsafe)
        } else {
            None
        }),
{
    if voltage_check_enabled && battery_has_failsafed {
        return Some(ArmRefusal::BatteryFailsafe);
    }
    None
}

/// The ground-station failsafe check. It cannot be switched off.
pub fn gcs_failsafe_check(gcs_failsafe: bool) -> (r: Option<ArmRefusal>)
    ensures
        r == (if gcs_failsafe {
            Some(ArmRefusal::GcsFailsafeOn)
        } else {
            None
        }),
{
    if gcs_failsafe {
        return Some(ArmRefusal::GcsFailsafeOn);
    }
    None
}

/// The altitude check. A mode where the pilot's stick is the throttle needs no
/// altitude estimate.
pub fn alt_check(mode_has_manual_throttle: bool, ekf_alt_ok: bool) -> (r: Option<ArmRefusal>)
    ensures
        r == (if !mode_has_manual_throttle && !ekf_alt_ok {
            Some(ArmRefusal::NeedAltEstimate)
        } else {
            None
        }),
{
    if !mode_has_manual_throttle && !ekf_alt_ok {
        return Some(ArmRefusal::NeedAltEstimate);
    }
    None
}

/// The interlock and emergency-stop switch assignments.
#[derive(Debug, Clone, Copy, PartialEq, Eq, Structural)]
pub struct InterlockSwitches {
    /// A channel is assigned to the motor interlock.
    pub motor_interlock_assigned: bool,
    /// A channel is assigned to the motor emergency stop.
    pub motor_estop_assigned: bool,
    /// A channel is assigned to the arm emergency stop.
    pub arm_emergency_stop_assigned: bool,
    /// The vehicle is using an interlock.
    pub using_interlock: bool,
    /// The interlock switch is in the enabled position.
    pub motor_interlock_switch: bool,
}

/// The two interlock checks. Neither returns early, so a vehicle with both
/// problems is told about both: slot 0 is the conflict, slot 1 the enabled
/// interlock.
pub fn interlock_checks(switches: &InterlockSwitches) -> (r: [Option<ArmRefusal>; 2])
    ensures
        r@[0] == (if switches.motor_interlock_assigned && (switches.motor_estop_assigned
            || switches.arm_emergency_stop_assigned) {
            Some(ArmRefusal::InterlockEstopConflict)
        } else {
            None
        }),
        r@[1] == (if switches.using_interlock && switches.motor_interlock_switch {
            Some(ArmRefusal::MotorInterlockEnabled)
        } else {
            None
        }),
{
    let conflict = switches.motor_interlock_assigned && (switches.motor_estop_assigned
        || switches.arm_emergency_stop_assigned);
    let first = if conflict {
        Some(ArmRefusal::InterlockEstopConflict)
    } else {
        None
    };
    let second = if switches.using_interlock && switches.motor_interlock_switch {
        Some(ArmRefusal::MotorInterlockEnabled)
    } else {
        None
    };
    [first, second]
}

/// The system-initialised check. Nothing else can be trusted before it passes.
pub fn system_initialised_check(is_system_initialized: bool) -> (r: Option<ArmRefusal>)
    ensures
        r == (if is_system_initialized {
            None
        } else {
            Some(ArmRefusal::SystemNotInitialised)
        }),
{
    if is_system_initialized {
        return None;
    }
    Some(ArmRefusal::SystemNotInitialised)
}

/// Whether the pre-arm checks run at all: an already-armed vehicle passes
/// without any check running.
pub fn pre_arm_checks_apply(already_armed: bool) -> (r: bool)
    ensures
        r == !already_armed,
{
    !already_armed
}

/// The removed value 2 of `FS_GCS_ENABLE`.
pub const FS_GCS_ENABLED_CONTINUE_MISSION: u8 = 2;

/// The lowest `FS_THR_VALUE` accepted: a PPM encoder signals loss of signal by
/// outputting 900 microseconds.
pub const MIN_FAILSAFE_THROTTLE_VALUE: u16 = 910;

/// The margin the throttle channel's minimum must clear `FS_THR_VALUE` by.
pub const FAILSAFE_THROTTLE_MARGIN: u16 = 10;

/// Why a parameter check refused, or warned.
#[derive(Debug, Clone, Copy, PartialEq, Eq, Structural)]
pub enum ParameterRefusal {
    /// `FS_THR_VALUE` is unusable against the throttle minimum or the encoder floor.
    CheckFsThrValue,
    /// `FS_GCS_ENABLE=2` was removed. Does not block arming.
    FsGcsEnable2Removed,
    /// The acro balance gains are negative or exceed the angle-P gains.
    CheckAcroBalance,
    /// `PILOT_SPD_UP` is not positive.
    CheckPilotSpdUp,
    /// A helicopter frame class on a multirotor build.
    InvalidMulticopterFrameClass,
    /// RTL above terrain but there is no terrain data.
    RtlTerrainNoData,
    /// RTL above terrain but there is no downward rangefinder.
    RtlTerrainNoRangefinder,
    /// The RTL altitude exceeds the rangefinder's maximum range.
    RtlAltAboveRangefinderMax,
    /// An ADS-B threat is active.
    AdsbThreatDetected,
    /// The position controller refused its own parameters.
    BadPositionControllerParameter,
    /// The attitude controller refused its own parameters.
    BadAttitudeControllerParameter,
}

impl ParameterRefusal {
    /// Whether this refusal prevents arming. All but the obsolete-parameter
    /// warning do.
    pub fn blocks_arming(self) -> (r: bool)
        ensures
            r == !(self == ParameterRefusal::FsGcsEnable2Removed),
    {
        !matches!(self, ParameterRefusal::FsGcsEnable2Removed)
    }
}

/// Where the above-terrain RTL's terrain data would come from.
#[derive(Debug, Clone, Copy, PartialEq, Eq, Structural)]
pub enum TerrainSource {
    /// No terrain source at all.
    Unavailable,
    /// A downward rangefinder.
    Rangefinder,
    /// The terrain database, checked elsewhere.
    Database,
}

/// Everything the parameter checks read.
#[derive(Debug, Clone, Copy, PartialEq, Eq, Structural)]
pub struct ParameterState {
    /// The parameter check is enabled.
    pub parameter_check_enabled: bool,
    /// `FS_THR_ENABLE`, non-zero meaning the throttle failsafe is on.
    pub failsafe_throttle: u8,
    /// The throttle channel's minimum, microseconds.
    pub throttle_radio_min: u16,
    /// `FS_THR_VALUE`.
    pub failsafe_throttle_value: u16,
    /// `FS_GCS_ENABLE`.
    pub failsafe_gcs: u8,
    /// A roll or pitch acro balance gain is negative or above its angle-P gain.
    pub acro_balance_out_of_range: bool,
    /// `PILOT_SPD_UP` is above zero.
    pub pilot_speed_up_positive: bool,
    /// The frame class is one of the helicopter ones.
    pub frame_class_is_heli: bool,
    /// The RTL altitude type is above-terrain.
    pub rtl_alt_type_is_terrain: bool,
    /// Where terrain data would come from.
    pub terrain_source: TerrainSource,
    /// A downward rangefinder is enabled and present.
    pub rangefinder_available: bool,
    /// The RTL altitude is above the rangefinder's maximum range.
    pub rtl_alt_above_rangefinder_max: bool,
    /// An ADS-B failsafe is active.
    pub adsb_failsafe: bool,
    /// The position controller accepted its parameters.
    pub pos_control_ok: bool,
    /// The attitude controller accepted its parameters.
    pub attitude_control_ok: bool,
}

/// Whether the throttle failsafe threshold is unusable: too close to the
/// throttle minimum, or at the encoder's loss-of-signal floor.
pub open spec fn fs_thr_value_bad(s: ParameterState) -> bool {
    s.failsafe_throttle != 0 && (s.throttle_radio_min <= s.failsafe_throttle_value
        + FAILSAFE_THROTTLE_MARGIN || s.failsafe_throttle_value < MIN_FAILSAFE_THROTTLE_VALUE)
}

/// The above-terrain RTL rung. The database case is checked elsewhere.
pub open spec fn above_terrain_rtl_refusal_spec(s: ParameterState) -> Option<ParameterRefusal> {
    match s.terrain_source {
        TerrainSource::Unavailable => Some(ParameterRefusal::RtlTerrainNoData),
        TerrainSource::Rangefinder => if !s.rangefinder_available {
            Some(ParameterRefusal::RtlTerrainNoRangefinder)
        } else if s.rtl_alt_above_rangefinder_max {
            Some(ParameterRefusal::RtlAltAboveRangefinderMax)
        } else {
            None
        },
        TerrainSource::Database => None,
    }
}

/// The rungs below the `FS_GCS_ENABLE` warning, in order; at most one fires.
pub open spec fn first_blocking_parameter_refusal_spec(s: ParameterState) -> Option<
    ParameterRefusal,
> {
    if s.acro_balance_out_of_range {
        Some(ParameterRefusal::CheckAcroBalance)
    } else if !s.pilot_speed_up_positive {
        Some(ParameterRefusal::CheckPilotSpdUp)
    } else if s.frame_class_is_heli {
        Some(ParameterRefusal::InvalidMulticopterFrameClass)
    } else if s.rtl_alt_type_is_terrain && above_terrain_rtl_refusal_spec(s).is_some() {
        above_terrain_rtl_refusal_spec(s)
    } else if s.adsb_failsafe {
        Some(ParameterRefusal::AdsbThreatDetected)
    } else if !s.pos_control_ok {
        Some(ParameterRefusal::BadPositionControllerParameter)
    } else if !s.attitude_control_ok {
        Some(ParameterRefusal::BadAttitudeControllerParameter)
    } else {
        None
    }
}

fn above_terrain_rtl_refusal(state: &ParameterState) -> (r: Option<ParameterRefusal>)
    ensures
        r == above_terrain_rtl_refusal_spec(*state),
{
    match state.terrain_source {
        TerrainSource::Unavailable => Some(ParameterRefusal::RtlTerrainNoData),
        TerrainSource::Rangefinder => {
            if !state.rangefinder_available {
                return Some(ParameterRefusal::RtlTerrainNoRangefinder);
            }
            if state.rtl_alt_above_rangefinder_max {
                return Some(ParameterRefusal::RtlAltAboveRangefinderMax);
            }
            None
        },
        TerrainSource::Database => None,
    }
}

fn first_blocking_parameter_refusal(state: &ParameterState) -> (r: Option<ParameterRefusal>)
    ensures
        r == first_blocking_parameter_refusal_spec(*state),
{
    if state.acro_balance_out_of_range {
        return Some(ParameterRefusal::CheckAcroBalance);
    }
    if !state.pilot_speed_up_positive {
        return Some(ParameterRefusal::CheckPilotSpdUp);
    }
    if state.frame_class_is_heli {
        return Some(ParameterRefusal::InvalidMulticopterFrameClass);
    }
    if state.rtl_alt_type_is_terrain {
        let refusal = above_terrain_rtl_refusal(state);
        if refusal.is_some() {
            return refusal;
        }
    }
    if state.adsb_failsafe {
        return Some(ParameterRefusal::AdsbThreatDetected);
    }
    if !state.pos_control_ok {
        return Some(ParameterRefusal::BadPositionControllerParameter);
    }
    if !state.attitude_control_ok {
        return Some(ParameterRefusal::BadAttitudeControllerParameter);
    }
    None
}

/// The parameter pre-arm checks, every refusal raised in order.
///
/// The throttle-failsafe rung returns at once. The `FS_GCS_ENABLE=2` warning
/// reports and carries on, so it can be followed by one blocking refusal: two
/// slots are the most a call can fill, and slot 0 holds the first raised.
pub fn parameter_checks(state: &ParameterState) -> (r: [Option<ParameterRefusal>; 2])
    ensures
        !state.parameter_check_enabled ==> r@[0] == None::<ParameterRefusal> && r@[1] == None::<
            ParameterRefusal,
        >,
        state.parameter_check_enabled && fs_thr_value_bad(*state) ==> r@[0] == Some(
            ParameterRefusal::CheckFsThrValue,
        ) && r@[1] == None::<ParameterRefusal>,
        state.parameter_check_enabled && !fs_thr_value_bad(*state) && state.failsafe_gcs
            == FS_GCS_ENABLED_CONTINUE_MISSION ==> r@[0] == Some(
            ParameterRefusal::FsGcsEnable2Removed,
        ) && r@[1] == first_blocking_parameter_refusal_spec(*state),
        state.parameter_check_enabled && !fs_thr_value_bad(*state) && state.failsafe_gcs
            != FS_GCS_ENABLED_CONTINUE_MISSION ==> r@[0] == first_blocking_parameter_refusal_spec(
            *state,
        ) && r@[1] == None::<ParameterRefusal>,
{
    if !state.parameter_check_enabled {
        return [None, None];
    }
    let margin_limit: u32 = state.failsafe_throttle_value as u32 + FAILSAFE_THROTTLE_MARGIN as u32;
    if state.failsafe_throttle != 0 && ((state.throttle_radio_min as u32) <= margin_limit
        || state.failsafe_throttle_value < MIN_FAILSAFE_THROTTLE_VALUE) {
        return [Some(ParameterRefusal::CheckFsThrValue), None];
    }
    let blocking = first_blocking_parameter_refusal(state);
    if state.failsafe_gcs == FS_GCS_ENABLED_CONTINUE_MISSION {
        [Some(ParameterRefusal::FsGcsEnable2Removed), blocking]
    } else {
        [blocking, None]
    }
}

/// The highest channel minimum a calibrated channel may have, microseconds.
pub const RC_CALIB_MIN_LIMIT_PWM: u16 = 1300;

/// The lowest channel maximum a calibrated channel may have, microseconds.
pub const RC_CALIB_MAX_LIMIT_PWM: u16 = 1700;

/// The Copter half of the barometer check.
///
/// Only when the estimator uses an absolute height reference (absolute
/// position predicted, relative not) are the inertial and barometric heights
/// compared; `heights_agree` is that comparison, true when they differ by no
/// more than the permitted disparity.
pub fn altitude_disparity_check(
    baro_check_enabled: bool,
    predicts_relative_position: bool,
    predicts_absolute_position: bool,
    heights_agree: bool,
) -> (r: bool)
    ensures
        r == (!baro_check_enabled || !(!predicts_relative_position && predicts_absolute_position)
            || heights_agree),
{
    if !baro_check_enabled {
        return true;
    }
    let using_baro_reference = !predicts_relative_position && predicts_absolute_position;
    if !using_baro_reference {
        return true;
    }
    heights_agree
}

/// The Copter half of the inertial checks: the EKF attitude must be good.
pub fn ekf_attitude_check(ins_check_enabled: bool, ekf_attitude_ok: bool) -> (r: bool)
    ensures
        r == (!ins_check_enabled || ekf_attitude_ok),
{
    if !ins_check_enabled {
        return true;
    }
    ekf_attitude_ok
}

/// Which end of a channel's calibration is wrong.
#[derive(Debug, Clone, Copy, PartialEq, Eq, Structural)]
pub enum RcCalibrationFault {
    /// The channel minimum is above the limit.
    MinTooHigh,
    /// The channel maximum is below the limit.
    MaxTooLow,
}

/// One channel's calibration limits.
#[derive(Debug, Clone, Copy, PartialEq, Eq, Structural)]
pub struct RcChannelCalibration {
    /// The channel minimum, microseconds.
    pub radio_min: u16,
    /// The channel maximum, microseconds.
    pub radio_max: u16,
}

/// Whether a channel's calibration has no fault at either end.
pub open spec fn channel_calibration_ok(c: RcChannelCalibration) -> bool {
    c.radio_min <= RC_CALIB_MIN_LIMIT_PWM && c.radio_max >= RC_CALIB_MAX_LIMIT_PWM
}

/// Both faults a single channel can have, tested independently: a channel that
/// was never calibrated is reported at both ends.
pub fn rc_channel_calibration_faults(channel: &RcChannelCalibration) -> (r: [Option<
    RcCalibrationFault,
>; 2])
    ensures
        r@[0] == (if channel.radio_min > RC_CALIB_MIN_LIMIT_PWM {
            Some(RcCalibrationFault::MinTooHigh)
        } else {
            None
        }),
        r@[1] == (if channel.radio_max < RC_CALIB_MAX_LIMIT_PWM {
            Some(RcCalibrationFault::MaxTooLow)
        } else {
            None
        }),
{
    let low = if channel.radio_min > RC_CALIB_MIN_LIMIT_PWM {
        Some(RcCalibrationFault::MinTooHigh)
    } else {
        None
    };
    let high = if channel.radio_max < RC_CALIB_MAX_LIMIT_PWM {
        Some(RcCalibrationFault::MaxTooLow)
    } else {
        None
    };
    [low, high]
}

/// Whether every one of the four stick channels (roll, pitch, throttle, yaw)
/// passes its calibration check.
pub fn rc_calibration_passes(rc_check_enabled: bool, channels: &[RcChannelCalibration; 4]) -> (r:
    bool)
    ensures
        r == (!rc_check_enabled || forall|i: int|
            0 <= i < 4 ==> #[trigger] channel_calibration_ok(channels@[i])),
{
    if !rc_check_enabled {
        return true;
    }
    let mut i: usize = 0;
    while i < 4
        invariant
            rc_check_enabled,
            0 <= i <= 4,
            forall|j: int| 0 <= j < i ==> #[trigger] channel_calibration_ok(channels@[j]),
        decreases 4 - i,
    {
        let faults = rc_channel_calibration_faults(&channels[i]);
        if faults[0].is_some() || faults[1].is_some() {
            assert(!channel_calibration_ok(channels@[i as int]));
            return false;
        }
        i = i + 1;
    }
    true
}

/// Combine the two halves of the RC calibration check. Both halves run, so the
/// operator hears about every problem at once; the result is their
/// conjunction.
pub fn combine_rc_calibration(copter_half: bool, shared_half: bool) -> (r: bool)
    ensures
        r == (copter_half && shared_half),
{
    // Both halves have already run; the combination is their conjunction.
    copter_half && shared_half
}

/// Why a position-related pre-arm check refused.
#[derive(Debug, Clone, Copy, PartialEq, Eq, Structural)]
pub enum PositionRefusal {
    /// The AHRS refused; its own message follows.
    Ahrs,
    /// The flight mode, or the arming requirement, needs a position and there is none.
    NeedPositionEstimate,
    /// A fence needs a position and there is none.
    FenceNeedsPositionEstimate,
    /// The EKF reports the GPS glitching.
    GpsGlitching,
    /// An EKF variance is at or above the failsafe threshold.
    EkfVariance(EkfVariance),
    /// HDOP is worse than the good-HDOP parameter.
    HighGpsHdop,
}

/// Which EKF variance exceeded the threshold, in the order they are reported.
#[derive(Debug, Clone, Copy, PartialEq, Eq, Structural)]
pub enum EkfVariance {
    /// Reported first.
    Compass,
    /// Second.
    Position,
    /// Third.
    Velocity,
    /// Fourth.
    Height,
}

impl EkfVariance {
    /// The word for this variance, as it appears in "EKF %s variance".
    pub fn name(self) -> (n: &'static str)
        ensures
            n@ == match self {
                EkfVariance::Compass => "compass"@,
                EkfVariance::Position => "position"@,
                EkfVariance::Velocity => "velocity"@,
                EkfVariance::Height => "height"@,
            },
    {
        match self {
            EkfVariance::Compass => "compass",
            EkfVariance::Position => "position",
            EkfVariance::Velocity => "velocity",
            EkfVariance::Height => "height",
        }
    }
}

/// Whether the fence needs a position estimate: a circle or polygon fence does,
/// an altitude-only fence does not.
pub fn fence_requires_position(circle_fence_enabled: bool, polygon_fence_enabled: bool) -> (r:
    bool)
    ensures
        r == (circle_fence_enabled || polygon_fence_enabled),
{
    circle_fence_enabled || polygon_fence_enabled
}

/// Whether the vehicle needs a position: the flight mode, a fence, or
/// super-simple mode asks for one.
pub fn mode_requires_position(
    flightmode_requires_position: bool,
    fence_requires_position: bool,
    super_simple_mode: bool,
) -> (r: bool)
    ensures
        r == (flightmode_requires_position || fence_requires_position || super_simple_mode),
{
    flightmode_requires_position || fence_requires_position || super_simple_mode
}

/// Whether the vehicle needs GPS specifically: it needs a position and takes it
/// from GPS.
pub fn mode_requires_gps(ahrs_using_gps: bool, mode_requires_position: bool) -> (r: bool)
    ensures
        r == (ahrs_using_gps && mode_requires_position),
{
    ahrs_using_gps && mode_requires_position
}

/// What the mandatory position checks read.
#[derive(Debug, Clone, Copy, PartialEq, Eq, Structural)]
pub struct MandatoryPositionState {
    /// The AHRS's own pre-arm check passed.
    pub ahrs_pre_arm_ok: bool,
    /// The flight mode needs a position.
    pub mode_requires_position: bool,
    /// The arming requirement demands a location.
    pub require_location: bool,
    /// A circle or polygon fence is enabled.
    pub fence_requires_position: bool,
    /// The position estimate is usable.
    pub position_ok: bool,
    /// The EKF's filter status was readable.
    pub filter_status_available: bool,
    /// The EKF reports the GPS glitching.
    pub gps_glitching: bool,
    /// `FS_EKF_THRESH` is above zero, so the variance checks run.
    pub variance_checks_enabled: bool,
    /// The compass variance is at or above the threshold.
    pub compass_variance_high: bool,
    /// The position variance is at or above the threshold.
    pub position_variance_high: bool,
    /// The velocity variance is at or above the threshold.
    pub velocity_variance_high: bool,
    /// The height variance is at or above the threshold.
    pub height_variance_high: bool,
}

/// The mandatory position checks.
///
/// A vehicle with no position estimate is refused either way, with a different
/// message when only a fence needed one. When no position is needed at all,
/// the glitch and variance checks do not run.
pub fn mandatory_position_checks(state: &MandatoryPositionState) -> (r: Option<PositionRefusal>)
    ensures
        r == (if !state.ahrs_pre_arm_ok {
            Some(PositionRefusal::Ahrs)
        } else if !(state.mode_requires_position || state.require_location
            || state.fence_requires_position) {
            None
        } else if !state.position_ok {
            if state.mode_requires_position || state.require_location {
                Some(PositionRefusal::NeedPositionEstimate)
            } else {
                Some(PositionRefusal::FenceNeedsPositionEstimate)
            }
        } else if state.filter_status_available && state.gps_glitching {
            Some(PositionRefusal::GpsGlitching)
        } else if state.variance_checks_enabled && state.compass_variance_high {
            Some(PositionRefusal::EkfVariance(EkfVariance::Compass))
        } else if state.variance_checks_enabled && state.position_variance_high {
            Some(PositionRefusal::EkfVariance(EkfVariance::Position))
        } else if state.variance_checks_enabled && state.velocity_variance_high {
            Some(PositionRefusal::EkfVariance(EkfVariance::Velocity))
        } else if state.variance_checks_enabled && state.height_variance_high {
            Some(PositionRefusal::EkfVariance(EkfVariance::Height))
        } else {
            None
        }),
{
    if !state.ahrs_pre_arm_ok {
        return Some(PositionRefusal::Ahrs);
    }
    if state.mode_requires_position || state.require_location {
        if !state.position_ok {
            return Some(PositionRefusal::NeedPositionEstimate);
        }
    } else if state.fence_requires_position {
        if !state.position_ok {
            return Some(PositionRefusal::FenceNeedsPositionEstimate);
        }
    } else {
        return None;
    }
    if state.filter_status_available && state.gps_glitching {
        return Some(PositionRefusal::GpsGlitching);
    }
    if state.variance_checks_enabled {
        if state.compass_variance_high {
            return Some(PositionRefusal::EkfVariance(EkfVariance::Compass));
        }
        if state.position_variance_high {
            return Some(PositionRefusal::EkfVariance(EkfVariance::Position));
        }
        if state.velocity_variance_high {
            return Some(PositionRefusal::EkfVariance(EkfVariance::Velocity));
        }
        if state.height_variance_high {
            return Some(PositionRefusal::EkfVariance(EkfVariance::Height));
        }
    }
    None
}

/// The HDOP check. With no GPS fitted the reading is meaningless.
pub fn gps_hdop_check(gps_sensor_count: u8, hdop: u16, hdop_good: u16) -> (r: Option<
    PositionRefusal,
>)
    ensures
        r == (if gps_sensor_count > 0 && hdop > hdop_good {
            Some(PositionRefusal::HighGpsHdop)
        } else {
            None
        }),
{
    if gps_sensor_count > 0 && hdop > hdop_good {
        return Some(PositionRefusal::HighGpsHdop);
    }
    None
}

/// Why the final arm check refused.
#[derive(Debug, Clone, Copy, PartialEq, Eq, Structural)]
pub enum ArmCheckRefusal {
    /// The AHRS is not healthy.
    AhrsNotHealthy,
    /// The compass is not healthy and the yaw source needs it.
    CompassNotHealthy,
    /// The current flight mode refuses to be armed by this method.
    ModeNotArmable,
    /// The aircraft is leaning past its maximum lean angle.
    Leaning,
    /// An ADS-B threat is active.
    AdsbThreatDetected,
    /// The throttle is above the deadband, or above zero in a manual mode.
    ThrottleTooHigh,
    /// The safety switch is in the disarmed position.
    SafetySwitch,
}

/// How arming was requested.
#[derive(Debug, Clone, Copy, PartialEq, Eq, Structural)]
pub enum ArmingMethod {
    /// The pilot's rudder stick or an auxiliary switch.
    Pilot,
    /// A ground station command.
    GroundStation,
    /// A script.
    Scripting,
}

impl ArmingMethod {
    /// Whether this method can be exempted from the throttle check: software
    /// that decided to arm, where a raised stick is stale.
    pub fn may_skip_throttle_check(self) -> (r: bool)
        ensures
            r == (self == ArmingMethod::GroundStation || self == ArmingMethod::Scripting),
    {
        matches!(self, ArmingMethod::GroundStation | ArmingMethod::Scripting)
    }
}

/// Everything the final arm check reads.
#[derive(Debug, Clone, Copy, PartialEq, Eq, Structural)]
pub struct ArmCheckState {
    /// The AHRS is healthy.
    pub ahrs_healthy: bool,
    /// The yaw estimate comes from something other than the compass.
    pub using_noncompass_for_yaw: bool,
    /// The compass is healthy.
    pub compass_healthy: bool,
    /// The flight mode accepts this arming method.
    pub mode_allows_arming: bool,
    /// The arming-check mask disables everything.
    pub skip_all_checks: bool,
    /// The inertial check is enabled.
    pub ins_check_enabled: bool,
    /// The tilt from vertical exceeds the attitude controller's maximum lean.
    pub leaning_past_max: bool,
    /// The parameter check is enabled.
    pub parameter_check_enabled: bool,
    /// An ADS-B failsafe is active.
    pub adsb_failsafe: bool,
    /// The RC check is enabled.
    pub rc_check_enabled: bool,
    /// How arming was requested.
    pub method: ArmingMethod,
    /// The mode permits a high throttle when armed by ground station or script.
    pub mode_allows_gcs_arming_with_throttle_high: bool,
    /// The pilot is commanding a climb.
    pub pilot_climb_rate_positive: bool,
    /// The mode flies on the pilot's throttle, or is the drift mode.
    pub manual_throttle_mode: bool,
    /// The throttle stick is off its stop.
    pub throttle_control_in_positive: bool,
    /// The safety switch is in the disarmed position.
    pub safety_switch_disarmed: bool,
}

/// The final checks before arming.
///
/// The AHRS health, compass health and mode-allows-arming tests sit above the
/// skip-all shortcut: turning the checks off does not turn those off. A ground
/// station or script arming a mode that permits it skips the throttle test.
pub fn arm_checks(state: &ArmCheckState) -> (r: Option<ArmCheckRefusal>)
    ensures
        r == (if !state.ahrs_healthy {
            Some(ArmCheckRefusal::AhrsNotHealthy)
        } else if !state.using_noncompass_for_yaw && !state.compass_healthy {
            Some(ArmCheckRefusal::CompassNotHealthy)
        } else if !state.mode_allows_arming {
            Some(ArmCheckRefusal::ModeNotArmable)
        } else if state.skip_all_checks {
            None
        } else if state.ins_check_enabled && state.leaning_past_max {
            Some(ArmCheckRefusal::Leaning)
        } else if state.parameter_check_enabled && state.adsb_failsafe {
            Some(ArmCheckRefusal::AdsbThreatDetected)
        } else if state.rc_check_enabled && !(state.method.may_skip_throttle_check_spec()
            && state.mode_allows_gcs_arming_with_throttle_high) && (state.pilot_climb_rate_positive
            || (state.manual_throttle_mode && state.throttle_control_in_positive)) {
            Some(ArmCheckRefusal::ThrottleTooHigh)
        } else if state.safety_switch_disarmed {
            Some(ArmCheckRefusal::SafetySwitch)
        } else {
            None
        }),
        // The three top checks hold whether or not the others are skipped.
        !state.ahrs_healthy ==> r.is_some(),
        !state.mode_allows_arming ==> r.is_some(),
{
    if !state.ahrs_healthy {
        return Some(ArmCheckRefusal::AhrsNotHealthy);
    }
    if !state.using_noncompass_for_yaw && !state.compass_healthy {
        return Some(ArmCheckRefusal::CompassNotHealthy);
    }
    if !state.mode_allows_arming {
        return Some(ArmCheckRefusal::ModeNotArmable);
    }
    if state.skip_all_checks {
        return None;
    }
    if state.ins_check_enabled && state.leaning_past_max {
        return Some(ArmCheckRefusal::Leaning);
    }
    if state.parameter_check_enabled && state.adsb_failsafe {
        return Some(ArmCheckRefusal::AdsbThreatDetected);
    }
    if state.rc_check_enabled {
        let exempt = state.method.may_skip_throttle_check()
            && state.mode_allows_gcs_arming_with_throttle_high;
        if !exempt {
            if state.pilot_climb_rate_positive {
                return Some(ArmCheckRefusal::ThrottleTooHigh);
            }
            if state.manual_throttle_mode && state.throttle_control_in_positive {
                return Some(ArmCheckRefusal::ThrottleTooHigh);
            }
        }
    }
    if state.safety_switch_disarmed {
        return Some(ArmCheckRefusal::SafetySwitch);
    }
    None
}

impl ArmingMethod {
    /// Spec form of [`ArmingMethod::may_skip_throttle_check`].
    pub open spec fn may_skip_throttle_check_spec(self) -> bool {
        self == ArmingMethod::GroundStation || self == ArmingMethod::Scripting
    }
}

/// Combine the mandatory checks. Every half runs; the result is the
/// conjunction.
pub fn combine_mandatory_checks(position_ok: bool, alt_ok: bool, shared_ok: bool) -> (r: bool)
    ensures
        r == (position_ok && alt_ok && shared_ok),
{
    let copter_half = position_ok && alt_ok;
    copter_half && shared_ok
}

/// The object-avoidance check's message: a refusal with no text is given a
/// generic one.
pub fn oa_check_message<'a>(passed: bool, planner_message: &'a str) -> (r: Option<&'a str>)
    ensures
        passed ==> r.is_none(),
        !passed && planner_message@.len() == 0 ==> r.is_some() && r.unwrap()@
            == "Check Object Avoidance"@,
        !passed && planner_message@.len() != 0 ==> r.is_some() && r.unwrap()@ == planner_message@,
{
    if passed {
        return None;
    }
    if planner_message.unicode_len() == 0 {
        return Some("Check Object Avoidance");
    }
    Some(planner_message)
}

/// The proximity check. Only applies when proximity avoidance is enabled;
/// `closest_object_clear` is `None` when nothing is detected, otherwise
/// whether the closest object is beyond the tolerance.
pub fn proximity_check(
    parameter_check_enabled: bool,
    avoidance_enabled: bool,
    closest_object_clear: Option<bool>,
) -> (r: bool)
    ensures
        r == (!parameter_check_enabled || !avoidance_enabled || match closest_object_clear {
            Some(clear) => clear,
            None => true,
        }),
{
    if !parameter_check_enabled || !avoidance_enabled {
        return true;
    }
    match closest_object_clear {
        Some(clear) => clear,
        None => true,
    }
}

/// The winch check. No winch fitted means nothing to check.
pub fn winch_check(parameter_check_enabled: bool, winch_present: bool, winch_pre_arm_ok: bool) -> (r:
    bool)
    ensures
        r == (!parameter_check_enabled || !winch_present || winch_pre_arm_ok),
{
    if !parameter_check_enabled {
        return true;
    }
    if !winch_present {
        return true;
    }
    winch_pre_arm_ok
}

/// Whether the terrain database must be loaded before arming.
pub fn terrain_database_required(
    terrain_source: TerrainSource,
    rtl_alt_type_is_terrain: bool,
    shared_requires_terrain: bool,
) -> (r: bool)
    ensures
        r == (if terrain_source == TerrainSource::Rangefinder {
            false
        } else if terrain_source == TerrainSource::Database && rtl_alt_type_is_terrain {
            true
        } else {
            shared_requires_terrain
        }),
{
    if matches!(terrain_source, TerrainSource::Rangefinder) {
        return false;
    }
    if matches!(terrain_source, TerrainSource::Database) && rtl_alt_type_is_terrain {
        return true;
    }
    shared_requires_terrain
}

/// Why a disarm request was refused.
#[derive(Debug, Clone, Copy, PartialEq, Eq, Structural)]
pub enum DisarmRefusal {
    /// A ground-station disarm while the vehicle is still flying.
    FlyingViaGroundStation,
    /// A rudder-stick disarm in an auto-throttle mode while not landed.
    FlyingViaRudder,
}

/// The guards before disarming. `None` when the request may proceed,
/// including when already disarmed.
pub fn disarm_guard(
    motors_armed: bool,
    do_disarm_checks: bool,
    method: ArmingMethod,
    land_complete: bool,
    manual_throttle_mode: bool,
) -> (r: Option<DisarmRefusal>)
    ensures
        r == (if !motors_armed {
            None
        } else if do_disarm_checks && method == ArmingMethod::GroundStation && !land_complete {
            Some(DisarmRefusal::FlyingViaGroundStation)
        } else if method == ArmingMethod::Pilot && !manual_throttle_mode && !land_complete {
            Some(DisarmRefusal::FlyingViaRudder)
        } else {
            None
        }),
        // A landed vehicle may always be disarmed.
        land_complete ==> r.is_none(),
{
    if !motors_armed {
        return None;
    }
    if do_disarm_checks && matches!(method, ArmingMethod::GroundStation) && !land_complete {
        return Some(DisarmRefusal::FlyingViaGroundStation);
    }
    if matches!(method, ArmingMethod::Pilot) && !manual_throttle_mode && !land_complete {
        return Some(DisarmRefusal::FlyingViaRudder);
    }
    None
}

/// What the arm entry guard decides before any side effects.
#[derive(Debug, Clone, Copy, PartialEq, Eq, Structural)]
pub enum ArmEntry {
    /// Re-entered while already arming: refuse.
    Reentrant,
    /// Already armed: succeed without doing anything.
    AlreadyArmed,
    /// Proceed with arming.
    Proceed,
}

/// The re-entrancy and already-armed guards at the top of arming.
pub fn arm_entry(in_arm_motors: bool, already_armed: bool) -> (r: ArmEntry)
    ensures
        r == (if in_arm_motors {
            ArmEntry::Reentrant
        } else if already_armed {
            ArmEntry::AlreadyArmed
        } else {
            ArmEntry::Proceed
        }),
{
    if in_arm_motors {
        return ArmEntry::Reentrant;
    }
    if already_armed {
        return ArmEntry::AlreadyArmed;
    }
    ArmEntry::Proceed
}

} // verus!
