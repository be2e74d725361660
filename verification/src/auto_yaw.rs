//! Where an autonomous mode points the nose.
//!
//! Every autonomous mode delegates yaw to this. It is a small state machine
//! with eleven states, and almost all of its content is in which state a given
//! situation selects and what each one contributes. The angles and rates it
//! carries are real numbers handled by the caller; what is decided here is the
//! mode, its transitions, and where each heading and rate is taken from.

use vstd::prelude::*;

mod leftover;

pub use leftover::{
    get_heading, set_mode, set_mode_to_default, yaw_angle_source, GetHeadingContext,
    GetHeadingLeftover, SetModeLeftover, StoredYawRate, YawAngleSource,
};

verus! {

/// How the yaw target is being decided. The numbers reach the logs and the
/// conditional-yaw handling; see [`YawMode::as_number`].
#[derive(Debug, Clone, Copy, PartialEq, Eq, Structural)]
pub enum YawMode {
    /// 0: hold zero yaw rate.
    Hold,
    /// 1: point towards the next waypoint. No pilot input accepted.
    LookAtNextWp,
    /// 2: point at a region of interest. No pilot input accepted.
    Roi,
    /// 3: point at a particular angle. No pilot input accepted.
    Fixed,
    /// 4: point the way the aircraft is moving.
    LookAhead,
    /// 5: point where the aircraft was facing when it armed.
    ResetToArmedYaw,
    /// 6: turn at a rate from a starting angle.
    AngleRate,
    /// 7: turn at a rate.
    Rate,
    /// 8: take the yaw the circle controller provides.
    Circle,
    /// 9: turn at the rate the pilot's stick asks for.
    PilotRate,
    /// 10: yaw into wind.
    Weathervane,
}

/// The number of a yaw mode.
pub open spec fn yaw_mode_number(m: YawMode) -> u8 {
    match m {
        YawMode::Hold => 0,
        YawMode::LookAtNextWp => 1,
        YawMode::Roi => 2,
        YawMode::Fixed => 3,
        YawMode::LookAhead => 4,
        YawMode::ResetToArmedYaw => 5,
        YawMode::AngleRate => 6,
        YawMode::Rate => 7,
        YawMode::Circle => 8,
        YawMode::PilotRate => 9,
        YawMode::Weathervane => 10,
    }
}

/// The yaw mode a number denotes, if any.
pub open spec fn yaw_mode_from_number(n: u8) -> Option<YawMode> {
    if n == 0 {
        Some(YawMode::Hold)
    } else if n == 1 {
        Some(YawMode::LookAtNextWp)
    } else if n == 2 {
        Some(YawMode::Roi)
    } else if n == 3 {
        Some(YawMode::Fixed)
    } else if n == 4 {
        Some(YawMode::LookAhead)
    } else if n == 5 {
        Some(YawMode::ResetToArmedYaw)
    } else if n == 6 {
        Some(YawMode::AngleRate)
    } else if n == 7 {
        Some(YawMode::Rate)
    } else if n == 8 {
        Some(YawMode::Circle)
    } else if n == 9 {
        Some(YawMode::PilotRate)
    } else if n == 10 {
        Some(YawMode::Weathervane)
    } else {
        None
    }
}

impl YawMode {
    /// The number for this mode.
    pub fn as_number(self) -> (n: u8)
        ensures
            n == yaw_mode_number(self),
    {
        match self {
            YawMode::Hold => 0,
            YawMode::LookAtNextWp => 1,
            YawMode::Roi => 2,
            YawMode::Fixed => 3,
            YawMode::LookAhead => 4,
            YawMode::ResetToArmedYaw => 5,
            YawMode::AngleRate => 6,
            YawMode::Rate => 7,
            YawMode::Circle => 8,
            YawMode::PilotRate => 9,
            YawMode::Weathervane => 10,
        }
    }

    /// The mode a number denotes, or `None` if none does.
    pub fn from_number(number: u8) -> (r: Option<YawMode>)
        ensures
            r == yaw_mode_from_number(number),
    {
        match number {
            0 => Some(YawMode::Hold),
            1 => Some(YawMode::LookAtNextWp),
            2 => Some(YawMode::Roi),
            3 => Some(YawMode::Fixed),
            4 => Some(YawMode::LookAhead),
            5 => Some(YawMode::ResetToArmedYaw),
            6 => Some(YawMode::AngleRate),
            7 => Some(YawMode::Rate),
            8 => Some(YawMode::Circle),
            9 => Some(YawMode::PilotRate),
            10 => Some(YawMode::Weathervane),
            _ => None,
        }
    }

    /// Whether this mode refuses the pilot's yaw stick: the ones that point at
    /// something.
    pub fn is_pilot_excluded(self) -> (r: bool)
        ensures
            r == (self == YawMode::LookAtNextWp || self == YawMode::Roi || self == YawMode::Fixed),
    {
        matches!(self, YawMode::LookAtNextWp | YawMode::Roi | YawMode::Fixed)
    }
}

/// Every yaw mode survives the round trip through its number.
pub proof fn lemma_yaw_mode_number_round_trip(m: YawMode)
    ensures
        yaw_mode_from_number(yaw_mode_number(m)) == Some(m),
{
}

/// A number that denotes a yaw mode is that mode's number; the numbers above
/// ten denote none.
pub proof fn lemma_yaw_mode_from_number_inverse(n: u8)
    ensures
        yaw_mode_from_number(n) matches Some(m) ==> yaw_mode_number(m) == n,
        yaw_mode_from_number(n).is_none() <==> n > 10,
{
}

/// `WP_YAW_BEHAVIOR`, the operator's standing preference during a mission.
#[derive(Debug, Clone, Copy, PartialEq, Eq, Structural)]
pub enum WpYawBehaviour {
    /// 0: never control yaw during missions or RTL, except on command.
    Never,
    /// 1: face the next waypoint, and home during RTL.
    LookAtNextWp,
    /// 2: face the next waypoint, except during RTL.
    LookAtNextWpExceptRtl,
    /// 3: look the way the aircraft is going.
    LookAhead,
}

impl WpYawBehaviour {
    /// The behaviour a stored parameter value denotes. Any unrecognised value
    /// behaves as 1.
    pub fn from_number(number: u8) -> (r: WpYawBehaviour)
        ensures
            r == (if number == 0 {
                WpYawBehaviour::Never
            } else if number == 2 {
                WpYawBehaviour::LookAtNextWpExceptRtl
            } else if number == 3 {
                WpYawBehaviour::LookAhead
            } else {
                WpYawBehaviour::LookAtNextWp
            }),
    {
        match number {
            0 => WpYawBehaviour::Never,
            2 => WpYawBehaviour::LookAtNextWpExceptRtl,
            3 => WpYawBehaviour::LookAhead,
            _ => WpYawBehaviour::LookAtNextWp,
        }
    }
}

/// The yaw mode a mission starts in.
pub open spec fn default_yaw_mode_spec(behaviour: WpYawBehaviour, rtl: bool) -> YawMode {
    match behaviour {
        WpYawBehaviour::Never => YawMode::Hold,
        WpYawBehaviour::LookAtNextWpExceptRtl => if rtl {
            YawMode::Hold
        } else {
            YawMode::LookAtNextWp
        },
        WpYawBehaviour::LookAhead => YawMode::LookAhead,
        WpYawBehaviour::LookAtNextWp => YawMode::LookAtNextWp,
    }
}

/// The yaw mode a mission should start in. Only the "except RTL" behaviour
/// treats a return differently: it holds the current heading on the way home.
pub fn default_yaw_mode(behaviour: WpYawBehaviour, rtl: bool) -> (r: YawMode)
    ensures
        r == default_yaw_mode_spec(behaviour, rtl),
{
    match behaviour {
        WpYawBehaviour::Never => YawMode::Hold,
        WpYawBehaviour::LookAtNextWpExceptRtl => {
            if rtl {
                YawMode::Hold
            } else {
                YawMode::LookAtNextWp
            }
        },
        WpYawBehaviour::LookAhead => YawMode::LookAhead,
        WpYawBehaviour::LookAtNextWp => YawMode::LookAtNextWp,
    }
}

/// What entering a yaw mode has to initialise.
#[derive(Debug, Clone, Copy, PartialEq, Eq, Structural)]
pub enum YawModeEntry {
    /// Nothing to do.
    Nothing,
    /// Seed the look-ahead heading from the current attitude.
    SeedLookAheadFromCurrentYaw,
    /// Zero the target rate.
    ZeroYawRate,
}

/// What a transition requires; `None` when the mode is unchanged.
pub open spec fn yaw_mode_entry_spec(current: YawMode, new_mode: YawMode) -> Option<YawModeEntry> {
    if current == new_mode {
        None
    } else {
        Some(
            match new_mode {
                YawMode::LookAhead => YawModeEntry::SeedLookAheadFromCurrentYaw,
                YawMode::Rate => YawModeEntry::ZeroYawRate,
                _ => YawModeEntry::Nothing,
            },
        )
    }
}

/// What a transition into `new_mode` requires.
///
/// Re-selecting the mode already running is not a transition, so it does not
/// re-run the initialisation: asking for `Rate` twice leaves the rate alone.
pub fn yaw_mode_entry(current: YawMode, new_mode: YawMode) -> (r: Option<YawModeEntry>)
    ensures
        r == yaw_mode_entry_spec(current, new_mode),
        r.is_none() <==> current == new_mode,
{
    if current == new_mode {
        return None;
    }
    Some(
        match new_mode {
            YawMode::LookAhead => YawModeEntry::SeedLookAheadFromCurrentYaw,
            YawMode::Rate => YawModeEntry::ZeroYawRate,
            _ => YawModeEntry::Nothing,
        },
    )
}

/// Where the yaw rate comes from in each mode.
#[derive(Debug, Clone, Copy, PartialEq, Eq, Structural)]
pub enum YawRateSource {
    /// Forced to zero: these modes hold an angle.
    Zero,
    /// Whatever the position controller is turning at.
    PositionController,
    /// The pilot's stick.
    Pilot,
    /// Left as it is: whoever commanded the mode set it.
    Unchanged,
}

/// The rate source of a mode.
pub open spec fn yaw_rate_source_spec(mode: YawMode) -> YawRateSource {
    match mode {
        YawMode::Hold | YawMode::Roi | YawMode::Fixed | YawMode::LookAhead
        | YawMode::ResetToArmedYaw | YawMode::Circle => YawRateSource::Zero,
        YawMode::LookAtNextWp => YawRateSource::PositionController,
        YawMode::PilotRate => YawRateSource::Pilot,
        YawMode::AngleRate | YawMode::Rate | YawMode::Weathervane => YawRateSource::Unchanged,
    }
}

/// Where the yaw rate comes from. The commanded-rate modes leave the stored
/// rate alone, so a commanded turn is not stopped on the next iteration.
pub fn yaw_rate_source(mode: YawMode) -> (r: YawRateSource)
    ensures
        r == yaw_rate_source_spec(mode),
{
    match mode {
        YawMode::Hold
        | YawMode::Roi
        | YawMode::Fixed
        | YawMode::LookAhead
        | YawMode::ResetToArmedYaw
        | YawMode::Circle => YawRateSource::Zero,
        YawMode::LookAtNextWp => YawRateSource::PositionController,
        YawMode::PilotRate => YawRateSource::Pilot,
        YawMode::AngleRate | YawMode::Rate | YawMode::Weathervane => YawRateSource::Unchanged,
    }
}

/// How the attitude controller should read the heading command.
#[derive(Debug, Clone, Copy, PartialEq, Eq, Structural)]
pub enum HeadingMode {
    /// An angle with no rate. Never selected by a yaw mode.
    AngleOnly,
    /// An angle and the rate to approach it at.
    AngleAndRate,
    /// A rate alone.
    RateOnly,
}

/// The heading-command kind of a mode.
pub open spec fn heading_mode_spec(mode: YawMode) -> HeadingMode {
    match mode {
        YawMode::Hold | YawMode::Rate | YawMode::PilotRate | YawMode::Weathervane => {
            HeadingMode::RateOnly
        },
        _ => HeadingMode::AngleAndRate,
    }
}

/// Which kind of heading command a yaw mode produces: modes that know where the
/// nose should point give an angle and rate, modes that only know how fast it
/// should move give a rate.
pub fn heading_mode(mode: YawMode) -> (r: HeadingMode)
    ensures
        r == heading_mode_spec(mode),
        r != HeadingMode::AngleOnly,
{
    match mode {
        YawMode::Hold | YawMode::Rate | YawMode::PilotRate | YawMode::Weathervane => {
            HeadingMode::RateOnly
        },
        YawMode::LookAtNextWp
        | YawMode::Roi
        | YawMode::Fixed
        | YawMode::LookAhead
        | YawMode::ResetToArmedYaw
        | YawMode::AngleRate
        | YawMode::Circle => HeadingMode::AngleAndRate,
    }
}

/// What the pilot's yaw stick does to the yaw mode.
#[derive(Debug, Clone, Copy, PartialEq, Eq, Structural)]
pub enum PilotYawOverride {
    /// Leave the mode alone.
    Leave,
    /// The pilot is asking for yaw: hand them the axis.
    TakeControl,
    /// The pilot had the axis and can no longer have it: go to `Hold`.
    ReleaseToHold,
}

/// The pilot-override decision.
pub open spec fn pilot_yaw_override_spec(
    current: YawMode,
    has_valid_input: bool,
    mode_uses_pilot_yaw: bool,
    pilot_yaw_rate_nonzero: bool,
) -> PilotYawOverride {
    if has_valid_input && mode_uses_pilot_yaw {
        if pilot_yaw_rate_nonzero {
            PilotYawOverride::TakeControl
        } else {
            PilotYawOverride::Leave
        }
    } else if current == YawMode::PilotRate {
        PilotYawOverride::ReleaseToHold
    } else {
        PilotYawOverride::Leave
    }
}

/// Whether the pilot takes or loses the yaw axis this iteration.
///
/// Any non-zero stick takes control (the deadzone has already been applied).
/// Losing the axis goes to `Hold`, not back to what ran before.
pub fn pilot_yaw_override(
    current: YawMode,
    has_valid_input: bool,
    mode_uses_pilot_yaw: bool,
    pilot_yaw_rate_nonzero: bool,
) -> (r: PilotYawOverride)
    ensures
        r == pilot_yaw_override_spec(
            current,
            has_valid_input,
            mode_uses_pilot_yaw,
            pilot_yaw_rate_nonzero,
        ),
{
    if has_valid_input && mode_uses_pilot_yaw {
        if pilot_yaw_rate_nonzero {
            return PilotYawOverride::TakeControl;
        }
        return PilotYawOverride::Leave;
    }
    if matches!(current, YawMode::PilotRate) {
        return PilotYawOverride::ReleaseToHold;
    }
    PilotYawOverride::Leave
}

/// What the weathervane controller decided this iteration.
#[derive(Debug, Clone, Copy, PartialEq, Eq, Structural)]
pub enum WeathervaneAction {
    /// Nothing to do.
    Leave,
    /// Take the yaw axis.
    Engage,
    /// Give the axis back to the mode that had it before.
    ReleaseTo(YawMode),
    /// Give the axis back to the default mode, because what was recorded was `Hold`.
    ReleaseToDefault,
}

/// The weathervane decision.
pub open spec fn weathervane_action_spec(
    current: YawMode,
    last_mode: YawMode,
    allows_weathervaning: bool,
    controller_wants_yaw: bool,
) -> WeathervaneAction {
    if allows_weathervaning && controller_wants_yaw {
        WeathervaneAction::Engage
    } else if current == YawMode::Weathervane {
        if last_mode == YawMode::Hold {
            WeathervaneAction::ReleaseToDefault
        } else {
            WeathervaneAction::ReleaseTo(last_mode)
        }
    } else {
        WeathervaneAction::Leave
    }
}

/// Whether weathervaning takes or releases the yaw axis.
///
/// A recorded `Hold` usually means nothing chose it (the pilot-override path
/// leaves it behind), so releasing to it would strand the aircraft; the
/// operator's default is used instead.
pub fn weathervane_action(
    current: YawMode,
    last_mode: YawMode,
    allows_weathervaning: bool,
    controller_wants_yaw: bool,
) -> (r: WeathervaneAction)
    ensures
        r == weathervane_action_spec(current, last_mode, allows_weathervaning, controller_wants_yaw),
{
    if allows_weathervaning && controller_wants_yaw {
        return WeathervaneAction::Engage;
    }
    if matches!(current, YawMode::Weathervane) {
        if matches!(last_mode, YawMode::Hold) {
            return WeathervaneAction::ReleaseToDefault;
        }
        return WeathervaneAction::ReleaseTo(last_mode);
    }
    WeathervaneAction::Leave
}

/// How a fixed-yaw command should be interpreted.
#[derive(Debug, Clone, Copy, PartialEq, Eq, Structural)]
pub enum FixedYawDirection {
    /// Turn whichever way is shorter.
    Shortest,
    /// Turn clockwise, going the long way if necessary.
    Clockwise,
    /// Turn counter-clockwise, going the long way if necessary.
    CounterClockwise,
}

impl FixedYawDirection {
    /// The direction a signed command value denotes: only the sign matters.
    pub fn from_sign(direction: i8) -> (r: FixedYawDirection)
        ensures
            r == (if direction < 0 {
                FixedYawDirection::CounterClockwise
            } else if direction > 0 {
                FixedYawDirection::Clockwise
            } else {
                FixedYawDirection::Shortest
            }),
    {
        if direction < 0 {
            FixedYawDirection::CounterClockwise
        } else if direction > 0 {
            FixedYawDirection::Clockwise
        } else {
            FixedYawDirection::Shortest
        }
    }
}

/// What a region-of-interest command does.
#[derive(Debug, Clone, Copy, PartialEq, Eq, Structural)]
pub enum RoiAction {
    /// The location was empty: cancel and return to the default yaw mode.
    Cancel,
    /// Point the airframe at the location, because the mount cannot pan.
    PointAirframe,
    /// Leave the airframe alone: the mount tracks the target itself.
    MountOnly,
}

/// The region-of-interest decision.
pub open spec fn roi_action_spec(location_initialised: bool, mount_has_pan_control: bool) -> RoiAction {
    if !location_initialised {
        RoiAction::Cancel
    } else if mount_has_pan_control {
        RoiAction::MountOnly
    } else {
        RoiAction::PointAirframe
    }
}

/// What a region-of-interest command does. An uninitialised location means
/// "stop", not "point at the all-zero coordinate".
pub fn roi_action(location_initialised: bool, mount_has_pan_control: bool) -> (r: RoiAction)
    ensures
        r == roi_action_spec(location_initialised, mount_has_pan_control),
{
    if !location_initialised {
        return RoiAction::Cancel;
    }
    if mount_has_pan_control {
        return RoiAction::MountOnly;
    }
    RoiAction::PointAirframe
}

/// Whether a fixed-yaw command has arrived. Outside `Fixed` there is nothing
/// to wait for; inside it, the slew must have used up its offset and the
/// measured heading must be within two degrees of the target (the caller's
/// comparison).
pub fn reached_fixed_yaw_target(mode: YawMode, offset_zero: bool, within_tolerance: bool) -> (r: bool)
    ensures
        r == (mode != YawMode::Fixed || (offset_zero && within_tolerance)),
{
    if !matches!(mode, YawMode::Fixed) {
        return true;
    }
    if !offset_zero {
        return false;
    }
    within_tolerance
}

/// What the stored yaw rate holds, as far as a rate command decides it.
#[derive(Debug, Clone, Copy, PartialEq, Eq, Structural)]
pub enum StoredRate {
    /// The rate held before the command.
    Previous,
    /// Zero.
    Zero,
    /// The rate the command asked for.
    Commanded,
}

/// What a rate command does: the mode it enters, what the stored rate holds
/// once the mode change is done, and what it holds at the end.
#[derive(Debug, Clone, Copy, PartialEq, Eq, Structural)]
pub struct SetRate {
    /// The mode after the command.
    pub mode: YawMode,
    /// The stored rate after the mode change, before the rate is assigned.
    pub after_entry: StoredRate,
    /// The stored rate at the end.
    pub stored_rate: StoredRate,
}

/// A rate command: the mode change to `Rate` first (which zeroes the stored
/// rate when it enters from another mode), then the commanded rate.
pub open spec fn set_rate_spec(current: YawMode) -> SetRate {
    SetRate {
        mode: YawMode::Rate,
        after_entry: if yaw_mode_entry_spec(current, YawMode::Rate) == Some(YawModeEntry::ZeroYawRate) {
            StoredRate::Zero
        } else {
            StoredRate::Previous
        },
        stored_rate: StoredRate::Commanded,
    }
}

/// Turns at a commanded rate. The mode change runs first, because entering
/// `Rate` zeroes the stored rate; the commanded rate is assigned after it and
/// so survives.
pub fn set_rate(current: YawMode) -> (r: SetRate)
    ensures
        r == set_rate_spec(current),
{
    let after_entry = if yaw_mode_entry(current, YawMode::Rate) == Some(YawModeEntry::ZeroYawRate) {
        StoredRate::Zero
    } else {
        StoredRate::Previous
    };
    SetRate { mode: YawMode::Rate, after_entry, stored_rate: StoredRate::Commanded }
}

/// The commanded rate survives entering `Rate`: from any other mode the entry
/// zeroes the stored rate, and the command still ends holding its own rate;
/// from `Rate` itself nothing is zeroed.
pub proof fn lemma_commanded_rate_survives_entry(current: YawMode)
    ensures
        set_rate_spec(current).stored_rate == StoredRate::Commanded,
        set_rate_spec(current).mode == YawMode::Rate,
        current != YawMode::Rate ==> set_rate_spec(current).after_entry == StoredRate::Zero,
        current == YawMode::Rate ==> set_rate_spec(current).after_entry == StoredRate::Previous,
{
}

} // verus!
