//! The two yaw-machine operations that talk to the vehicle: changing mode,
//! and producing the heading command for one iteration.
//!
//! The heading command may change mode twice (pilot, then weathervane) before
//! the final mode decides where the heading angle and rate are taken from.
//! The real-valued angle and rate are produced by the caller from the sources
//! chosen here.

use vstd::prelude::*;
use super::{
    default_yaw_mode, default_yaw_mode_spec, heading_mode, heading_mode_spec, pilot_yaw_override,
    pilot_yaw_override_spec, weathervane_action, weathervane_action_spec, yaw_mode_entry,
    yaw_mode_entry_spec, yaw_rate_source, yaw_rate_source_spec, HeadingMode, PilotYawOverride,
    WeathervaneAction, WpYawBehaviour, YawMode, YawModeEntry, YawRateSource,
};

verus! {

/// What a mode change stored and asked the vehicle for.
#[derive(Debug, Clone, Copy, PartialEq, Eq, Structural)]
pub struct SetModeLeftover {
    /// The mode after the call.
    pub mode: YawMode,
    /// The previous mode after the call; unchanged when the mode did not change.
    pub last_mode: YawMode,
    /// Whether the modes were written.
    pub changed: bool,
    /// The entry effect, or `None` when the call returned at once.
    pub entry: Option<YawModeEntry>,
    /// The look-ahead heading is seeded from the AHRS yaw.
    pub need_ahrs_yaw: bool,
    /// The stored rate is zeroed (a real entry into `Rate`).
    pub zero_yaw_rate: bool,
}

/// A mode change as a function of its inputs.
pub open spec fn set_mode_spec(current: YawMode, last_mode: YawMode, new_mode: YawMode) -> SetModeLeftover {
    match yaw_mode_entry_spec(current, new_mode) {
        None => SetModeLeftover {
            mode: current,
            last_mode,
            changed: false,
            entry: None,
            need_ahrs_yaw: false,
            zero_yaw_rate: false,
        },
        Some(entry) => SetModeLeftover {
            mode: new_mode,
            last_mode: current,
            changed: true,
            entry: Some(entry),
            need_ahrs_yaw: entry == YawModeEntry::SeedLookAheadFromCurrentYaw,
            zero_yaw_rate: entry == YawModeEntry::ZeroYawRate,
        },
    }
}

/// Change the yaw mode.
///
/// Re-selecting the current mode is not a transition: the previous mode is
/// left alone and the initialisation does not re-run.
pub fn set_mode(current: YawMode, last_mode: YawMode, new_mode: YawMode) -> (r: SetModeLeftover)
    ensures
        r == set_mode_spec(current, last_mode, new_mode),
        r.mode == new_mode,
{
    match yaw_mode_entry(current, new_mode) {
        None => SetModeLeftover {
            mode: current,
            last_mode,
            changed: false,
            entry: None,
            need_ahrs_yaw: false,
            zero_yaw_rate: false,
        },
        Some(entry) => SetModeLeftover {
            mode: new_mode,
            last_mode: current,
            changed: true,
            entry: Some(entry),
            need_ahrs_yaw: matches!(entry, YawModeEntry::SeedLookAheadFromCurrentYaw),
            zero_yaw_rate: matches!(entry, YawModeEntry::ZeroYawRate),
        },
    }
}

/// Change to the operator's default mode.
pub fn set_mode_to_default(
    current: YawMode,
    last_mode: YawMode,
    behaviour: WpYawBehaviour,
    rtl: bool,
) -> (r: SetModeLeftover)
    ensures
        r == set_mode_spec(current, last_mode, default_yaw_mode_spec(behaviour, rtl)),
{
    set_mode(current, last_mode, default_yaw_mode(behaviour, rtl))
}

/// Where the heading angle was taken from this iteration.
#[derive(Debug, Clone, Copy, PartialEq, Eq, Structural)]
pub enum YawAngleSource {
    /// The bearing to the region of interest.
    Roi,
    /// The fixed-yaw slew; needs the time since the last update.
    FixedSlew,
    /// The look-ahead heading.
    LookAhead,
    /// The bearing captured at arming.
    ArmedBearing,
    /// The circle controller's yaw, while it is compiled in and active.
    CircleNav,
    /// Circle mode without an active circle controller: the stored angle is held.
    CircleHeld,
    /// The attitude controller's current yaw target.
    AttitudeTarget,
    /// The position controller's yaw (next-waypoint, and `Hold` falling through).
    PosControl,
    /// Angle-rate integration; needs the time since the last update.
    AngleRate,
}

impl YawAngleSource {
    /// The position controller's yaw is read.
    pub fn need_pos_control_yaw(self) -> (r: bool)
        ensures
            r == (self == YawAngleSource::PosControl),
    {
        matches!(self, YawAngleSource::PosControl)
    }

    /// The attitude controller's yaw target is read.
    pub fn need_att_target_yaw(self) -> (r: bool)
        ensures
            r == (self == YawAngleSource::AttitudeTarget),
    {
        matches!(self, YawAngleSource::AttitudeTarget)
    }

    /// The circle controller's yaw is read.
    pub fn need_circle_yaw(self) -> (r: bool)
        ensures
            r == (self == YawAngleSource::CircleNav),
    {
        matches!(self, YawAngleSource::CircleNav)
    }

    /// The armed bearing is read.
    pub fn need_armed_bearing(self) -> (r: bool)
        ensures
            r == (self == YawAngleSource::ArmedBearing),
    {
        matches!(self, YawAngleSource::ArmedBearing)
    }

    /// The clock is read, for the two time-stepped sources.
    pub fn need_millis(self) -> (r: bool)
        ensures
            r == (self == YawAngleSource::FixedSlew || self == YawAngleSource::AngleRate),
    {
        matches!(self, YawAngleSource::FixedSlew | YawAngleSource::AngleRate)
    }
}

/// The heading-angle source of a mode.
pub open spec fn yaw_angle_source_spec(
    mode: YawMode,
    circle_nav_enabled: bool,
    circle_nav_active: bool,
) -> YawAngleSource {
    match mode {
        YawMode::Roi => YawAngleSource::Roi,
        YawMode::Fixed => YawAngleSource::FixedSlew,
        YawMode::LookAhead => YawAngleSource::LookAhead,
        YawMode::ResetToArmedYaw => YawAngleSource::ArmedBearing,
        YawMode::Circle => if circle_nav_enabled && circle_nav_active {
            YawAngleSource::CircleNav
        } else {
            YawAngleSource::CircleHeld
        },
        YawMode::AngleRate => YawAngleSource::AngleRate,
        YawMode::Rate | YawMode::Weathervane | YawMode::PilotRate => YawAngleSource::AttitudeTarget,
        YawMode::Hold | YawMode::LookAtNextWp => YawAngleSource::PosControl,
    }
}

/// Where the heading angle is taken from in a mode. `Hold` has no case of its
/// own and falls through to the position controller's yaw, though its command
/// is rate-only.
pub fn yaw_angle_source(mode: YawMode, circle_nav_enabled: bool, circle_nav_active: bool) -> (r:
    YawAngleSource)
    ensures
        r == yaw_angle_source_spec(mode, circle_nav_enabled, circle_nav_active),
{
    match mode {
        YawMode::Roi => YawAngleSource::Roi,
        YawMode::Fixed => YawAngleSource::FixedSlew,
        YawMode::LookAhead => YawAngleSource::LookAhead,
        YawMode::ResetToArmedYaw => YawAngleSource::ArmedBearing,
        YawMode::Circle => {
            if circle_nav_enabled && circle_nav_active {
                YawAngleSource::CircleNav
            } else {
                YawAngleSource::CircleHeld
            }
        },
        YawMode::AngleRate => YawAngleSource::AngleRate,
        YawMode::Rate | YawMode::Weathervane | YawMode::PilotRate => YawAngleSource::AttitudeTarget,
        YawMode::Hold | YawMode::LookAtNextWp => YawAngleSource::PosControl,
    }
}

/// What the stored yaw rate holds once the mode changes of an iteration are done.
#[derive(Debug, Clone, Copy, PartialEq, Eq, Structural)]
pub enum StoredYawRate {
    /// The rate from the previous iteration.
    Previous,
    /// Zero.
    Zeroed,
    /// The rate the weathervane controller asked for.
    Weathervane,
}

/// What the heading command reads from the vehicle, apart from the real-valued
/// angles and rates the caller combines with the sources chosen here.
#[derive(Debug, Clone, Copy, PartialEq, Eq, Structural)]
pub struct GetHeadingContext {
    /// The mode at the start of the call.
    pub mode: YawMode,
    /// The previous mode at the start of the call.
    pub last_mode: YawMode,
    /// The RC input is valid.
    pub has_valid_input: bool,
    /// The flight mode uses the pilot's yaw.
    pub use_pilot_yaw: bool,
    /// The pilot's desired yaw rate is non-zero. Read only when the input is
    /// valid and the flight mode uses pilot yaw.
    pub pilot_yaw_rate_nonzero: bool,
    /// Weathervaning is compiled in.
    pub weathervane_enabled: bool,
    /// The flight mode allows weathervaning.
    pub allows_weathervaning: bool,
    /// The weathervane controller wants the yaw axis. Only read when
    /// weathervaning is allowed.
    pub weathervane_wants_yaw: bool,
    /// The operator's standing preference, for a release from `Hold`.
    pub wp_yaw_behavior: WpYawBehaviour,
    /// The circle controller is compiled in.
    pub circle_nav_enabled: bool,
    /// The circle controller is active.
    pub circle_nav_active: bool,
}

/// What the heading command decided.
#[derive(Debug, Clone, Copy, PartialEq, Eq, Structural)]
pub struct GetHeadingLeftover {
    /// The heading-command kind of the mode the call ended in.
    pub heading_mode: HeadingMode,
    /// The mode after the call.
    pub mode: YawMode,
    /// The previous mode after the call.
    pub last_mode: YawMode,
    /// The pilot's desired yaw rate was read (otherwise it is taken as zero).
    pub need_pilot_yaw_rate: bool,
    /// The weathervane update ran.
    pub need_update_weathervane: bool,
    /// The weathervane controller's output was read.
    pub need_weathervane_yaw_out: bool,
    /// The mode the pilot branch asked for, if any.
    pub pilot_set_mode: Option<YawMode>,
    /// The mode the weathervane branch asked for, if any.
    pub weathervane_set_mode: Option<YawMode>,
    /// The last mode change, or the no-op when neither branch changed mode.
    pub set_mode: SetModeLeftover,
    /// The look-ahead heading was re-seeded from the AHRS yaw by a mode change.
    pub look_ahead_seeded: bool,
    /// What the stored rate holds before the rate source is applied.
    pub stored_rate: StoredYawRate,
    /// Where the heading angle is taken from.
    pub yaw_angle_source: YawAngleSource,
    /// Where the heading rate is taken from.
    pub yaw_rate_source: YawRateSource,
}

/// The state a mode change leaves, applied to the running state.
pub open spec fn after_set_mode(
    s: SetModeLeftover,
    seeded: bool,
    stored: StoredYawRate,
) -> (bool, StoredYawRate) {
    (seeded || s.need_ahrs_yaw, if s.zero_yaw_rate {
        StoredYawRate::Zeroed
    } else {
        stored
    })
}

/// The pilot branch's requested mode.
pub open spec fn pilot_request(ctx: GetHeadingContext) -> Option<YawMode> {
    match pilot_yaw_override_spec(
        ctx.mode,
        ctx.has_valid_input,
        ctx.use_pilot_yaw,
        ctx.pilot_yaw_rate_nonzero,
    ) {
        PilotYawOverride::TakeControl => Some(YawMode::PilotRate),
        PilotYawOverride::ReleaseToHold => Some(YawMode::Hold),
        PilotYawOverride::Leave => None,
    }
}

/// The mode change the pilot branch made (the no-op when it made none).
pub open spec fn pilot_set_mode_spec(ctx: GetHeadingContext) -> SetModeLeftover {
    match pilot_request(ctx) {
        Some(requested) => set_mode_spec(ctx.mode, ctx.last_mode, requested),
        None => set_mode_spec(ctx.mode, ctx.last_mode, ctx.mode),
    }
}

/// The heading command as a function of its inputs.
pub open spec fn get_heading_spec(ctx: GetHeadingContext) -> GetHeadingLeftover {
    let p = pilot_set_mode_spec(ctx);
    let (seeded1, stored1) = after_set_mode(p, false, StoredYawRate::Previous);
    let mode1 = p.mode;
    let last1 = p.last_mode;
    let action = weathervane_action_spec(
        mode1,
        last1,
        ctx.allows_weathervaning,
        ctx.weathervane_wants_yaw,
    );
    let (w, wv_request, stored2) = if !ctx.weathervane_enabled {
        (p, None, stored1)
    } else {
        match action {
            WeathervaneAction::Engage => {
                let s = set_mode_spec(mode1, last1, YawMode::Weathervane);
                (s, Some(YawMode::Weathervane), StoredYawRate::Weathervane)
            },
            WeathervaneAction::ReleaseToDefault => {
                let s = set_mode_spec(mode1, last1, default_yaw_mode_spec(ctx.wp_yaw_behavior, false));
                (s, Some(s.mode), StoredYawRate::Zeroed)
            },
            WeathervaneAction::ReleaseTo(restored) => {
                let s = set_mode_spec(mode1, last1, restored);
                (s, Some(restored), StoredYawRate::Zeroed)
            },
            WeathervaneAction::Leave => (p, None, stored1),
        }
    };
    let seeded2 = if wv_request.is_some() {
        seeded1 || w.need_ahrs_yaw
    } else {
        seeded1
    };
    let mode = w.mode;
    GetHeadingLeftover {
        heading_mode: heading_mode_spec(mode),
        mode,
        last_mode: w.last_mode,
        need_pilot_yaw_rate: ctx.has_valid_input && ctx.use_pilot_yaw,
        need_update_weathervane: ctx.weathervane_enabled,
        need_weathervane_yaw_out: ctx.weathervane_enabled && ctx.allows_weathervaning,
        pilot_set_mode: pilot_request(ctx),
        weathervane_set_mode: wv_request,
        set_mode: w,
        look_ahead_seeded: seeded2,
        stored_rate: stored2,
        yaw_angle_source: yaw_angle_source_spec(mode, ctx.circle_nav_enabled, ctx.circle_nav_active),
        yaw_rate_source: yaw_rate_source_spec(mode),
    }
}

/// The heading command for one iteration.
///
/// Pilot override runs first and may switch to `PilotRate` or `Hold`.
/// Weathervaning then runs (when compiled in) and may take the axis or hand it
/// back. The heading angle and rate sources are those of the final mode.
pub fn get_heading(ctx: &GetHeadingContext) -> (r: GetHeadingLeftover)
    ensures
        r == get_heading_spec(*ctx),
        r.heading_mode == heading_mode_spec(r.mode),
{
    let mut mode = ctx.mode;
    let mut last_mode = ctx.last_mode;
    let mut seeded = false;
    let mut stored = StoredYawRate::Previous;
    let mut leftover = set_mode(mode, last_mode, mode);

    let need_pilot_yaw_rate = ctx.has_valid_input && ctx.use_pilot_yaw;
    let pilot_set_mode = match pilot_yaw_override(
        mode,
        ctx.has_valid_input,
        ctx.use_pilot_yaw,
        ctx.pilot_yaw_rate_nonzero,
    ) {
        PilotYawOverride::TakeControl => Some(YawMode::PilotRate),
        PilotYawOverride::ReleaseToHold => Some(YawMode::Hold),
        PilotYawOverride::Leave => None,
    };
    if let Some(requested) = pilot_set_mode {
        leftover = set_mode(mode, last_mode, requested);
        mode = leftover.mode;
        last_mode = leftover.last_mode;
        seeded = seeded || leftover.need_ahrs_yaw;
        if leftover.zero_yaw_rate {
            stored = StoredYawRate::Zeroed;
        }
    }

    let need_update_weathervane = ctx.weathervane_enabled;
    let need_weathervane_yaw_out = need_update_weathervane && ctx.allows_weathervaning;
    let mut weathervane_set_mode: Option<YawMode> = None;
    if need_update_weathervane {
        match weathervane_action(
            mode,
            last_mode,
            ctx.allows_weathervaning,
            ctx.weathervane_wants_yaw,
        ) {
            WeathervaneAction::Engage => {
                leftover = set_mode(mode, last_mode, YawMode::Weathervane);
                // Weathervane initialises nothing, so this is what arms the rate.
                stored = StoredYawRate::Weathervane;
                weathervane_set_mode = Some(YawMode::Weathervane);
            },
            WeathervaneAction::ReleaseToDefault => {
                // Zero first: changing to the default does not touch the rate.
                stored = StoredYawRate::Zeroed;
                leftover = set_mode_to_default(mode, last_mode, ctx.wp_yaw_behavior, false);
                weathervane_set_mode = Some(leftover.mode);
            },
            WeathervaneAction::ReleaseTo(restored) => {
                stored = StoredYawRate::Zeroed;
                leftover = set_mode(mode, last_mode, restored);
                weathervane_set_mode = Some(restored);
            },
            WeathervaneAction::Leave => {},
        }
        if weathervane_set_mode.is_some() {
            mode = leftover.mode;
            last_mode = leftover.last_mode;
            seeded = seeded || leftover.need_ahrs_yaw;
        }
    }

    GetHeadingLeftover {
        heading_mode: heading_mode(mode),
        mode,
        last_mode,
        need_pilot_yaw_rate,
        need_update_weathervane,
        need_weathervane_yaw_out,
        pilot_set_mode,
        weathervane_set_mode,
        set_mode: leftover,
        look_ahead_seeded: seeded,
        stored_rate: stored,
        yaw_angle_source: yaw_angle_source(mode, ctx.circle_nav_enabled, ctx.circle_nav_active),
        yaw_rate_source: yaw_rate_source(mode),
    }
}

/// Without weathervaning compiled in, the only mode change an iteration makes
/// is the pilot's, and a vehicle whose RC input is valid and whose flight mode
/// uses pilot yaw ends in `PilotRate` exactly when the pilot's stick is off
/// centre or it was already there.
pub proof fn lemma_heading_pilot_only_without_weathervane(ctx: GetHeadingContext)
    requires
        !ctx.weathervane_enabled,
        ctx.has_valid_input,
        ctx.use_pilot_yaw,
    ensures
        get_heading_spec(ctx).weathervane_set_mode.is_none(),
        get_heading_spec(ctx).mode == YawMode::PilotRate <==> (ctx.pilot_yaw_rate_nonzero
            || ctx.mode == YawMode::PilotRate),
{
}

/// An engaged weathervane always ends the iteration in `Weathervane`, turning
/// at the rate its controller asked for.
pub proof fn lemma_heading_weathervane_engages(ctx: GetHeadingContext)
    requires
        ctx.weathervane_enabled,
        ctx.allows_weathervaning,
        ctx.weathervane_wants_yaw,
    ensures
        get_heading_spec(ctx).mode == YawMode::Weathervane,
        get_heading_spec(ctx).stored_rate == StoredYawRate::Weathervane,
        get_heading_spec(ctx).heading_mode == HeadingMode::RateOnly,
{
}

} // verus!
