//! The AutoTune flight mode: its entry gates, the axis and tune-step types the
//! tuner works with, and the discrete part of each tick.
//!
//! AutoTune can only be entered in flight, from one of four modes. Entry seats
//! the vertical controller and then branches on where the tuner left off: a
//! fresh or failed tune starts from the first enabled axis, a paused one
//! resumes, and a finished one enters validation with the tuned gains.

use vstd::prelude::*;
use crate::spool::{DesiredSpoolState, SpoolState};

verus! {

/// The AutoTune mode's number.
pub const MODE_NUMBER_AUTOTUNE: u8 = 15;

/// The Stabilize mode's number.
pub const MODE_NUMBER_STABILIZE: u8 = 0;

/// The AltHold mode's number.
pub const MODE_NUMBER_ALT_HOLD: u8 = 2;

/// The Loiter mode's number.
pub const MODE_NUMBER_LOITER: u8 = 5;

/// The PosHold mode's number.
pub const MODE_NUMBER_POSHOLD: u8 = 16;

/// Axis bit: roll.
pub const AUTOTUNE_AXIS_BITMASK_ROLL: u8 = 1;

/// Axis bit: pitch.
pub const AUTOTUNE_AXIS_BITMASK_PITCH: u8 = 2;

/// Axis bit: yaw (tuned with the error filter).
pub const AUTOTUNE_AXIS_BITMASK_YAW: u8 = 4;

/// Axis bit: yaw tuned with D.
pub const AUTOTUNE_AXIS_BITMASK_YAW_D: u8 = 8;

/// Default axis mask: roll, pitch and yaw.
pub const AUTOTUNE_AXIS_BITMASK_DEFAULT: u8 = 7;

/// Successful twitches before a gain freezes.
pub const AUTOTUNE_SUCCESS_COUNT: u8 = 4;

/// Message id: started.
pub const AUTOTUNE_MESSAGE_STARTED: u8 = 0;

/// Message id: stopped.
pub const AUTOTUNE_MESSAGE_STOPPED: u8 = 1;

/// Message id: success.
pub const AUTOTUNE_MESSAGE_SUCCESS: u8 = 2;

/// Message id: failed.
pub const AUTOTUNE_MESSAGE_FAILED: u8 = 3;

/// Message id: gains saved.
pub const AUTOTUNE_MESSAGE_SAVED_GAINS: u8 = 4;

/// Message id: pilot testing the tuned gains.
pub const AUTOTUNE_MESSAGE_TESTING: u8 = 5;

/// Message id: testing ended, original gains restored.
pub const AUTOTUNE_MESSAGE_TESTING_END: u8 = 6;

/// How long the aircraft must stay level before a twitch starts, ms.
pub const AUTOTUNE_REQUIRED_LEVEL_TIME_MS: u32 = 250;

/// The level-wait timeout, ms.
pub const AUTOTUNE_LEVEL_TIMEOUT_MS: u32 = 2000;

/// How long the sticks must be centred before the tune resumes, ms.
pub const AUTOTUNE_PILOT_OVERRIDE_TIMEOUT_MS: u32 = 500;

/// Pilot-override warning interval, ms.
pub const AUTOTUNE_PILOT_OVERRIDE_WARN_MS: u32 = 1000;

/// The longest a twitch may run, ms.
pub const AUTOTUNE_TESTING_STEP_TIMEOUT_MS: u32 = 2000;

/// What the AutoTune mode reports about itself.
#[derive(Debug, Clone, Copy, PartialEq, Eq, Structural)]
pub struct AutoTuneModeFlags {
    /// The mode number.
    pub mode_number: u8,
    /// The mode itself does not need a position.
    pub requires_position: bool,
    /// The throttle is automatic.
    pub has_manual_throttle: bool,
    /// The mode cannot be armed in: the aircraft must already be flying.
    pub allows_arming: bool,
    /// Not an autopilot mode.
    pub is_autopilot: bool,
}

/// The AutoTune mode's flags.
pub fn autotune_mode_flags() -> (r: AutoTuneModeFlags)
    ensures
        r == (AutoTuneModeFlags {
            mode_number: MODE_NUMBER_AUTOTUNE,
            requires_position: false,
            has_manual_throttle: false,
            allows_arming: false,
            is_autopilot: false,
        }),
{
    AutoTuneModeFlags {
        mode_number: MODE_NUMBER_AUTOTUNE,
        requires_position: false,
        has_manual_throttle: false,
        allows_arming: false,
        is_autopilot: false,
    }
}

/// AutoTune has no user takeoff: it cannot start on the ground.
pub fn autotune_has_user_takeoff(_must_navigate: bool) -> (r: bool)
    ensures
        !r,
{
    false
}

/// Whether a mode allows AutoTune to be entered from it.
pub open spec fn allows_autotune_spec(from_mode_number: u8) -> bool {
    from_mode_number == MODE_NUMBER_STABILIZE || from_mode_number == MODE_NUMBER_ALT_HOLD
        || from_mode_number == MODE_NUMBER_LOITER || from_mode_number == MODE_NUMBER_POSHOLD
}

/// Whether AutoTune may be entered from this mode: Stabilize, AltHold, Loiter
/// and PosHold allow it, every other mode does not.
pub fn allows_autotune(from_mode_number: u8) -> (r: bool)
    ensures
        r == allows_autotune_spec(from_mode_number),
{
    from_mode_number == MODE_NUMBER_STABILIZE || from_mode_number == MODE_NUMBER_ALT_HOLD
        || from_mode_number == MODE_NUMBER_LOITER || from_mode_number == MODE_NUMBER_POSHOLD
}

/// Whether the tune holds position: when entered from Loiter or PosHold.
pub fn autotune_use_poshold(from_mode_number: u8) -> (r: bool)
    ensures
        r == (from_mode_number == MODE_NUMBER_LOITER || from_mode_number == MODE_NUMBER_POSHOLD),
{
    from_mode_number == MODE_NUMBER_LOITER || from_mode_number == MODE_NUMBER_POSHOLD
}

/// The axis being tuned.
#[derive(Debug, Clone, Copy, PartialEq, Eq, Structural)]
pub enum AxisType {
    /// Roll.
    Roll,
    /// Pitch.
    Pitch,
    /// Yaw, tuned with the error filter.
    Yaw,
    /// Yaw, tuned with D.
    YawD,
}

/// The number an axis is logged under.
pub open spec fn axis_number(a: AxisType) -> u8 {
    match a {
        AxisType::Roll => 0,
        AxisType::Pitch => 1,
        AxisType::Yaw => 2,
        AxisType::YawD => 3,
    }
}

impl AxisType {
    /// The number this axis is logged under.
    pub fn number(self) -> (n: u8)
        ensures
            n == axis_number(self),
    {
        match self {
            AxisType::Roll => 0,
            AxisType::Pitch => 1,
            AxisType::Yaw => 2,
            AxisType::YawD => 3,
        }
    }
}

/// Where the tuner is overall.
#[derive(Debug, Clone, Copy, PartialEq, Eq, Structural)]
pub enum TuneMode {
    /// Never started.
    Uninitialised,
    /// Twitching and updating gains.
    Tuning,
    /// Original gains restored after a completed tune.
    Finished,
    /// Original gains; restart on the next entry.
    Failed,
    /// Flying the newly tuned gains.
    Validating,
}

/// Where the tuner is within one test.
#[derive(Debug, Clone, Copy, PartialEq, Eq, Structural)]
pub enum Step {
    /// Waiting for the aircraft to be level.
    WaitingForLevel,
    /// Twitching.
    ExecutingTest,
    /// Updating gains from the twitch just measured.
    UpdateGains,
    /// Abandoning the twitch.
    Abort,
}

/// Which gain set is loaded.
#[derive(Debug, Clone, Copy, PartialEq, Eq, Structural)]
pub enum GainType {
    /// As configured before the tune started.
    Original,
    /// Applied during an active twitch.
    Test,
    /// Between twitches, with slower integrator build-up.
    IntraTest,
    /// Discovered by the tune.
    Tuned,
}

/// What a twitch tick writes onto the step.
#[derive(Debug, Clone, Copy, PartialEq, Eq, Structural)]
pub enum TwitchTick {
    /// Still running.
    Running,
    /// Done: update gains.
    Done,
    /// Abort the twitch.
    Aborted,
}

/// The kind of twitch a tune step performs. The three helicopter kinds are a
/// flow-of-control error on a multicopter; `TuneComplete` terminates the
/// sequence.
#[derive(Debug, Clone, Copy, PartialEq, Eq, Structural)]
pub enum TuneType {
    /// Rate D up.
    RateDUp,
    /// Rate D down.
    RateDDown,
    /// Rate P up.
    RatePUp,
    /// Rate feed-forward up (helicopter).
    RateFfUp,
    /// Angle P down.
    AnglePDown,
    /// Angle P up.
    AnglePUp,
    /// Find maximum gains (helicopter).
    MaxGains,
    /// Check the frequency response (helicopter).
    TuneCheck,
    /// The sequence terminator.
    TuneComplete,
}

/// The number a tune type is logged under.
pub open spec fn tune_type_number(t: TuneType) -> u8 {
    match t {
        TuneType::RateDUp => 0,
        TuneType::RateDDown => 1,
        TuneType::RatePUp => 2,
        TuneType::RateFfUp => 3,
        TuneType::AnglePDown => 4,
        TuneType::AnglePUp => 5,
        TuneType::MaxGains => 6,
        TuneType::TuneCheck => 7,
        TuneType::TuneComplete => 8,
    }
}

impl TuneType {
    /// The number this tune type is logged under.
    pub fn number(self) -> (n: u8)
        ensures
            n == tune_type_number(self),
    {
        match self {
            TuneType::RateDUp => 0,
            TuneType::RateDDown => 1,
            TuneType::RatePUp => 2,
            TuneType::RateFfUp => 3,
            TuneType::AnglePDown => 4,
            TuneType::AnglePUp => 5,
            TuneType::MaxGains => 6,
            TuneType::TuneCheck => 7,
            TuneType::TuneComplete => 8,
        }
    }
}

/// Whether a tune type steps an angle target instead of a rate.
pub open spec fn twitch_is_angle_p_spec(t: TuneType) -> bool {
    t == TuneType::AnglePDown || t == TuneType::AnglePUp
}

/// Whether a tune type is one of the helicopter-only kinds.
pub open spec fn twitch_is_heli_only_spec(t: TuneType) -> bool {
    t == TuneType::RateFfUp || t == TuneType::MaxGains || t == TuneType::TuneCheck
}

/// Whether this tune type steps an angle target instead of a rate.
pub fn twitch_is_angle_p(tune_type: TuneType) -> (r: bool)
    ensures
        r == twitch_is_angle_p_spec(tune_type),
{
    matches!(tune_type, TuneType::AnglePDown | TuneType::AnglePUp)
}

/// Whether this tune type is one a multicopter must not twitch.
pub fn twitch_is_heli_only(tune_type: TuneType) -> (r: bool)
    ensures
        r == twitch_is_heli_only_spec(tune_type),
{
    matches!(tune_type, TuneType::RateFfUp | TuneType::MaxGains | TuneType::TuneCheck)
}

/// Why AutoTune entry was refused.
#[derive(Debug, Clone, Copy, PartialEq, Eq, Structural)]
pub enum AutoTuneInitFail {
    /// The from-mode does not allow AutoTune.
    FromModeRefused,
    /// The throttle is at zero.
    ThrottleZero,
    /// Not flying: disarmed, not auto-armed, or landed.
    NotFlying,
    /// No motors, or the motors are not armed.
    MotorsNotArmed,
}

/// What AutoTune entry reads.
#[derive(Debug, Clone, Copy, PartialEq, Eq, Structural)]
pub struct AutoTuneInitView {
    /// The mode number being left.
    pub from_mode_number: u8,
    /// The throttle is at zero.
    pub throttle_zero: bool,
    /// The motors are armed.
    pub armed: bool,
    /// Armed and the throttle has been raised.
    pub auto_armed: bool,
    /// The aircraft is landed.
    pub land_complete: bool,
    /// The motors exist.
    pub motors_present: bool,
    /// The axes to tune.
    pub axis_bitmask: u8,
    /// The tuner's mode before this entry.
    pub mode: TuneMode,
    /// The current axis when resuming.
    pub axis: AxisType,
}

impl AutoTuneInitView {
    /// Flying in Stabilize with the default axis mask, first start.
    pub fn typical() -> (r: AutoTuneInitView)
        ensures
            r == (AutoTuneInitView {
                from_mode_number: MODE_NUMBER_STABILIZE,
                throttle_zero: false,
                armed: true,
                auto_armed: true,
                land_complete: false,
                motors_present: true,
                axis_bitmask: AUTOTUNE_AXIS_BITMASK_DEFAULT,
                mode: TuneMode::Uninitialised,
                axis: AxisType::Roll,
            }),
    {
        AutoTuneInitView {
            from_mode_number: MODE_NUMBER_STABILIZE,
            throttle_zero: false,
            armed: true,
            auto_armed: true,
            land_complete: false,
            motors_present: true,
            axis_bitmask: AUTOTUNE_AXIS_BITMASK_DEFAULT,
            mode: TuneMode::Uninitialised,
            axis: AxisType::Roll,
        }
    }

    /// Flying in Loiter: the entry that asks for position hold.
    pub fn typical_loiter() -> (r: AutoTuneInitView)
        ensures
            r == (AutoTuneInitView { from_mode_number: MODE_NUMBER_LOITER, ..AutoTuneInitView::typical_spec() }),
    {
        let mut view = AutoTuneInitView::typical();
        view.from_mode_number = MODE_NUMBER_LOITER;
        view
    }

    /// The value [`AutoTuneInitView::typical`] returns.
    pub open spec fn typical_spec() -> AutoTuneInitView {
        AutoTuneInitView {
            from_mode_number: MODE_NUMBER_STABILIZE,
            throttle_zero: false,
            armed: true,
            auto_armed: true,
            land_complete: false,
            motors_present: true,
            axis_bitmask: AUTOTUNE_AXIS_BITMASK_DEFAULT,
            mode: TuneMode::Uninitialised,
            axis: AxisType::Roll,
        }
    }
}

/// What one AutoTune entry did.
#[derive(Debug, Clone, Copy, PartialEq, Eq, Structural)]
pub struct AutoTuneInit {
    /// Whether position is held. `None` on a failed gate.
    pub use_poshold: Option<bool>,
    /// The vertical position controller was seated.
    pub init_position_controller: bool,
    /// The gains were backed up and the tune initialised.
    pub backup_gains: bool,
    /// The tuner's mode after entry. `None` on a failed gate.
    pub mode: Option<TuneMode>,
    /// The axis after entry.
    pub axis: Option<AxisType>,
    /// The completed-axes mask after a fresh start.
    pub axes_completed: Option<u8>,
    /// The step after a fresh start or a resume.
    pub step: Option<Step>,
    /// Whether a position has been captured; always false on the passing path.
    pub have_position: Option<bool>,
    /// The message sent.
    pub gcs_message: Option<u8>,
    /// Which check stopped the entry, when one did.
    pub fail: Option<AutoTuneInitFail>,
    /// Every gate passed.
    pub ok: bool,
}

/// An entry refused by `fail`.
pub open spec fn autotune_init_failed(fail: AutoTuneInitFail) -> AutoTuneInit {
    AutoTuneInit {
        use_poshold: None,
        init_position_controller: false,
        backup_gains: false,
        mode: None,
        axis: None,
        axes_completed: None,
        step: None,
        have_position: None,
        gcs_message: None,
        fail: Some(fail),
        ok: false,
    }
}

fn failed(fail: AutoTuneInitFail) -> (r: AutoTuneInit)
    ensures
        r == autotune_init_failed(fail),
{
    AutoTuneInit {
        use_poshold: None,
        init_position_controller: false,
        backup_gains: false,
        mode: None,
        axis: None,
        axes_completed: None,
        step: None,
        have_position: None,
        gcs_message: None,
        fail: Some(fail),
        ok: false,
    }
}

/// Whether roll is in the axis mask.
pub open spec fn roll_enabled_spec(m: u8) -> bool {
    m & AUTOTUNE_AXIS_BITMASK_ROLL != 0
}

/// Whether pitch is in the axis mask.
pub open spec fn pitch_enabled_spec(m: u8) -> bool {
    m & AUTOTUNE_AXIS_BITMASK_PITCH != 0
}

/// Whether yaw is in the axis mask.
pub open spec fn yaw_enabled_spec(m: u8) -> bool {
    m & AUTOTUNE_AXIS_BITMASK_YAW != 0
}

/// Whether yaw-D is in the axis mask.
pub open spec fn yaw_d_enabled_spec(m: u8) -> bool {
    m & AUTOTUNE_AXIS_BITMASK_YAW_D != 0
}

/// Whether roll is to be tuned.
pub fn roll_enabled(axis_bitmask: u8) -> (r: bool)
    ensures
        r == roll_enabled_spec(axis_bitmask),
{
    axis_bitmask & AUTOTUNE_AXIS_BITMASK_ROLL != 0
}

/// Whether pitch is to be tuned.
pub fn pitch_enabled(axis_bitmask: u8) -> (r: bool)
    ensures
        r == pitch_enabled_spec(axis_bitmask),
{
    axis_bitmask & AUTOTUNE_AXIS_BITMASK_PITCH != 0
}

/// Whether yaw is to be tuned.
pub fn yaw_enabled(axis_bitmask: u8) -> (r: bool)
    ensures
        r == yaw_enabled_spec(axis_bitmask),
{
    axis_bitmask & AUTOTUNE_AXIS_BITMASK_YAW != 0
}

/// Whether yaw-D is to be tuned (the multicopter path).
pub fn yaw_d_enabled(axis_bitmask: u8) -> (r: bool)
    ensures
        r == yaw_d_enabled_spec(axis_bitmask),
{
    axis_bitmask & AUTOTUNE_AXIS_BITMASK_YAW_D != 0
}

/// The first enabled axis, in the order roll, pitch, yaw, yaw-D.
pub open spec fn first_enabled_axis_spec(m: u8) -> Option<AxisType> {
    if roll_enabled_spec(m) {
        Some(AxisType::Roll)
    } else if pitch_enabled_spec(m) {
        Some(AxisType::Pitch)
    } else if yaw_enabled_spec(m) {
        Some(AxisType::Yaw)
    } else if yaw_d_enabled_spec(m) {
        Some(AxisType::YawD)
    } else {
        None
    }
}

/// The first axis a fresh tune selects; `None` when the mask is empty.
pub fn first_enabled_axis(axis_bitmask: u8) -> (r: Option<AxisType>)
    ensures
        r == first_enabled_axis_spec(axis_bitmask),
{
    if roll_enabled(axis_bitmask) {
        Some(AxisType::Roll)
    } else if pitch_enabled(axis_bitmask) {
        Some(AxisType::Pitch)
    } else if yaw_enabled(axis_bitmask) {
        Some(AxisType::Yaw)
    } else if yaw_d_enabled(axis_bitmask) {
        Some(AxisType::YawD)
    } else {
        None
    }
}

/// AutoTune entry as a function of its inputs.
pub open spec fn mode_autotune_init_spec(view: AutoTuneInitView) -> AutoTuneInit {
    if !allows_autotune_spec(view.from_mode_number) {
        autotune_init_failed(AutoTuneInitFail::FromModeRefused)
    } else if view.throttle_zero {
        autotune_init_failed(AutoTuneInitFail::ThrottleZero)
    } else if !view.armed || !view.auto_armed || view.land_complete {
        autotune_init_failed(AutoTuneInitFail::NotFlying)
    } else if !view.motors_present {
        autotune_init_failed(AutoTuneInitFail::MotorsNotArmed)
    } else {
        let use_poshold = view.from_mode_number == MODE_NUMBER_LOITER || view.from_mode_number
            == MODE_NUMBER_POSHOLD;
        match view.mode {
            TuneMode::Failed | TuneMode::Uninitialised => AutoTuneInit {
                use_poshold: Some(use_poshold),
                init_position_controller: true,
                backup_gains: true,
                mode: Some(TuneMode::Tuning),
                axis: Some(
                    match first_enabled_axis_spec(view.axis_bitmask) {
                        Some(a) => a,
                        None => view.axis,
                    },
                ),
                axes_completed: Some(0),
                step: Some(Step::WaitingForLevel),
                have_position: Some(false),
                gcs_message: Some(AUTOTUNE_MESSAGE_STARTED),
                fail: None,
                ok: true,
            },
            TuneMode::Tuning => AutoTuneInit {
                use_poshold: Some(use_poshold),
                init_position_controller: true,
                backup_gains: false,
                mode: Some(TuneMode::Tuning),
                axis: Some(view.axis),
                axes_completed: None,
                step: Some(Step::WaitingForLevel),
                have_position: Some(false),
                gcs_message: Some(AUTOTUNE_MESSAGE_STARTED),
                fail: None,
                ok: true,
            },
            TuneMode::Finished | TuneMode::Validating => AutoTuneInit {
                use_poshold: Some(use_poshold),
                init_position_controller: true,
                backup_gains: false,
                mode: Some(TuneMode::Validating),
                axis: Some(view.axis),
                axes_completed: None,
                step: None,
                have_position: Some(false),
                gcs_message: Some(AUTOTUNE_MESSAGE_TESTING),
                fail: None,
                ok: true,
            },
        }
    }
}

/// AutoTune entry. `ignore_checks` is not read: no gate can be bypassed.
///
/// A failed tune restarts from scratch like a first start; a paused one
/// resumes at the level wait; a finished one enters validation.
pub fn mode_autotune_init(_ignore_checks: bool, view: &AutoTuneInitView) -> (r: AutoTuneInit)
    ensures
        r == mode_autotune_init_spec(*view),
        r.ok <==> r.fail.is_none(),
        r.ok ==> (r.mode == Some(TuneMode::Tuning) || r.mode == Some(TuneMode::Validating)),
{
    if !allows_autotune(view.from_mode_number) {
        return failed(AutoTuneInitFail::FromModeRefused);
    }
    if view.throttle_zero {
        return failed(AutoTuneInitFail::ThrottleZero);
    }
    if !view.armed || !view.auto_armed || view.land_complete {
        return failed(AutoTuneInitFail::NotFlying);
    }
    if !view.motors_present || !view.armed {
        return failed(AutoTuneInitFail::MotorsNotArmed);
    }
    let use_poshold = autotune_use_poshold(view.from_mode_number);
    match view.mode {
        TuneMode::Failed | TuneMode::Uninitialised => {
            let axis = match first_enabled_axis(view.axis_bitmask) {
                Some(a) => a,
                None => view.axis,
            };
            AutoTuneInit {
                use_poshold: Some(use_poshold),
                init_position_controller: true,
                backup_gains: true,
                mode: Some(TuneMode::Tuning),
                axis: Some(axis),
                axes_completed: Some(0),
                step: Some(Step::WaitingForLevel),
                have_position: Some(false),
                gcs_message: Some(AUTOTUNE_MESSAGE_STARTED),
                fail: None,
                ok: true,
            }
        },
        TuneMode::Tuning => AutoTuneInit {
            use_poshold: Some(use_poshold),
            init_position_controller: true,
            backup_gains: false,
            mode: Some(TuneMode::Tuning),
            axis: Some(view.axis),
            axes_completed: None,
            step: Some(Step::WaitingForLevel),
            have_position: Some(false),
            gcs_message: Some(AUTOTUNE_MESSAGE_STARTED),
            fail: None,
            ok: true,
        },
        TuneMode::Finished | TuneMode::Validating => AutoTuneInit {
            use_poshold: Some(use_poshold),
            init_position_controller: true,
            backup_gains: false,
            mode: Some(TuneMode::Validating),
            axis: Some(view.axis),
            axes_completed: None,
            step: None,
            have_position: Some(false),
            gcs_message: Some(AUTOTUNE_MESSAGE_TESTING),
            fail: None,
            ok: true,
        },
    }
}

/// The twitch direction after an abort: reversed.
pub fn reverse_test_direction(positive_direction: bool) -> (r: bool)
    ensures
        r == !positive_direction,
{
    !positive_direction
}

/// What the level check returns, with the writes it makes on the way out.
#[derive(Debug, Clone, Copy, PartialEq, Eq, Structural)]
pub struct CurrentlyLevel {
    /// The aircraft is level.
    pub level: bool,
    /// The level-start time after a yaw-slew reset, if any.
    pub level_start_time_ms: u32,
    /// The tune failed: the level wait ran three times its timeout.
    pub failed: bool,
}

/// Milliseconds from `since` to `now` on the wrapping clock.
pub open spec fn level_elapsed(now: u32, since: u32) -> int {
    if now >= since {
        now - since
    } else {
        now - since + 0x1_0000_0000
    }
}

/// The level timer's start after a yaw slew: while the yaw target still
/// slews (faster than half the slew limit) the level wait restarts now.
pub open spec fn level_start_spec(now_ms: u32, level_start_time_ms: u32, yaw_slewing: bool) -> u32 {
    if yaw_slewing {
        now_ms
    } else {
        level_start_time_ms
    }
}

/// The level timer's start after the yaw-slew reset.
pub fn level_start_after_slew(now_ms: u32, level_start_time_ms: u32, yaw_slewing: bool) -> (r: u32)
    ensures
        r == level_start_spec(now_ms, level_start_time_ms, yaw_slewing),
{
    if yaw_slewing {
        now_ms
    } else {
        level_start_time_ms
    }
}

/// The level check's outcome, from the level timer's start after the slew
/// reset and whether the attitude and rates are within the limits (which
/// the caller widens with the time spent waiting). The tune fails once the
/// wait has run three times the level timeout.
pub fn autotune_currently_level(now_ms: u32, level_start_time_ms: u32, within_limits: bool) -> (r:
    CurrentlyLevel)
    ensures
        r.level == within_limits,
        r.level_start_time_ms == level_start_time_ms,
        r.failed == (level_elapsed(now_ms, level_start_time_ms) > 3 * AUTOTUNE_LEVEL_TIMEOUT_MS),
{
    let elapsed = now_ms.wrapping_sub(level_start_time_ms);
    assert(elapsed == level_elapsed(now_ms, level_start_time_ms));
    CurrentlyLevel {
        level: within_limits,
        level_start_time_ms,
        failed: elapsed > 3 * AUTOTUNE_LEVEL_TIMEOUT_MS,
    }
}

/// A yaw slew restarts the level wait, so the tick that slews never fails
/// the tune however long the wait had run.
pub proof fn lemma_slewing_never_fails_level(now_ms: u32, level_start_time_ms: u32)
    ensures
        level_elapsed(now_ms, level_start_spec(now_ms, level_start_time_ms, true)) == 0,
        !(level_elapsed(now_ms, level_start_spec(now_ms, level_start_time_ms, true)) > 3
            * AUTOTUNE_LEVEL_TIMEOUT_MS),
{
}

} // verus!
