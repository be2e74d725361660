//! Auto, the mission mode: entering it, which handler a mission command
//! starts and which check verifies it, and the per-pass dispatch that starts
//! the mission once the position origin exists and runs the current submode.
//!
//! Entering Auto is refused without a mission (unless checks are ignored, as
//! when disarmed) and when armed on the ground with a mission that does not
//! start with a takeoff. A successful entry parks in the Loiter submode and
//! waits for the origin. A mission command the vehicle does not know is
//! refused at start, so the mission can move on, and skipped at verify.
//!
//! The command bodies are in [`starts`]; the completion checks in
//! [`verify`]. Distances, altitudes, speeds and angles are real numbers
//! handled by the caller; what arrives here are the outcomes of the
//! comparisons made on them.

use vstd::prelude::*;

mod starts;
mod verify;

pub use starts::{
    auto_change_speed_axis, auto_circle, auto_do_roi, auto_do_yaw_turn, auto_land_start,
    auto_loiter_time, auto_loiter_to_alt, auto_loiter_unlimited, auto_nav_delay,
    auto_payload_place, auto_rtl_from_init, auto_set_home, auto_spline_from_cmd,
    auto_spline_start, auto_takeoff_start, auto_wp_start, circle_radius_m, highbyte, lowbyte,
    AutoChangeSpeedView, AutoCircle, AutoCircleView, AutoCircleYaw, AutoDoRoi, AutoDoRoiView,
    AutoDoYawTurn, AutoLandStart, AutoLandStartView, AutoLoiterTime, AutoLoiterTimeView,
    AutoLoiterToAlt, AutoLoiterToAltView, AutoLoiterUnlimited, AutoLoiterUnlimitedView,
    AutoNavDelay, AutoNavDelayView, AutoPayloadPlace, AutoPayloadPlaceView, AutoRtlStart,
    AutoSetHome, AutoSetHomeKind, AutoSetHomeView, AutoSpeedAxis, AutoSplineFromCmd,
    AutoSplineFromCmdView, AutoSplineStart, AutoSplineStartView, AutoTakeoffStart,
    AutoTakeoffStartView, AutoWpStart, AutoWpStartView, PayloadPlaceState, TakeoffAltSource,
    SPEED_TYPE_AIRSPEED, SPEED_TYPE_CLIMB_SPEED, SPEED_TYPE_DESCENT_SPEED,
    SPEED_TYPE_GROUNDSPEED,
};
pub use verify::{
    auto_verify_circle, auto_verify_command, verify_handler, AutoVerifyCircle, AutoVerifyCircleView,
    AutoVerifyCommand, AutoVerifyHandler, auto_verify_land, auto_verify_loiter_time, auto_verify_loiter_to_alt,
    auto_verify_loiter_unlimited, auto_verify_nav_attitude_time, auto_verify_nav_delay,
    auto_verify_nav_guided_enable, auto_verify_nav_script_time, auto_verify_nav_wp,
    auto_verify_payload_place, auto_verify_rtl, auto_verify_spline_wp, auto_verify_takeoff,
    auto_verify_wait_delay, auto_verify_within_distance, auto_verify_yaw, AutoLandState,
    AutoVerifyWithinDistance, AutoVerifyYaw, AutoVerifyLand, AutoVerifyLandView, AutoVerifyNavDelay,
    AutoVerifyNavDelayView, AutoVerifyNavGuidedView, AutoVerifyNavScriptTimeView,
    AutoVerifyRtlView, AutoVerifyWaitDelay, AutoVerifyWaitDelayView, AutoVerifyWpTimer,
    AutoVerifyWpTimerView, RtlSubMode,
};

verus! {

/// Mode number of Auto.
pub const MODE_NUMBER_AUTO: u8 = 3;

/// Mode number Auto reports while flying its mission's return leg.
pub const MODE_NUMBER_AUTO_RTL: u8 = 27;

/// What Auto reports about itself after a successful entry.
#[derive(Debug, Clone, Copy, PartialEq, Eq, Structural)]
pub struct AutoModeFlags {
    /// Its mode number.
    pub mode_number: u8,
    /// It needs a position (the Loiter submode does).
    pub requires_position: bool,
    /// It does not fly on the pilot's throttle.
    pub has_manual_throttle: bool,
    /// It flies itself.
    pub is_autopilot: bool,
    /// The ground station may arm it with the throttle high.
    pub allows_gcs_or_scr_arming_with_throttle_high: bool,
    /// It needs the terrain failsafe.
    pub requires_terrain_failsafe: bool,
}

/// Auto's flags after a successful entry.
pub fn auto_mode_flags() -> (r: AutoModeFlags)
    ensures
        r == (AutoModeFlags {
            mode_number: MODE_NUMBER_AUTO,
            requires_position: true,
            has_manual_throttle: false,
            is_autopilot: true,
            allows_gcs_or_scr_arming_with_throttle_high: true,
            requires_terrain_failsafe: true,
        }),
{
    AutoModeFlags {
        mode_number: MODE_NUMBER_AUTO,
        requires_position: true,
        has_manual_throttle: false,
        is_autopilot: true,
        allows_gcs_or_scr_arming_with_throttle_high: true,
        requires_terrain_failsafe: true,
    }
}

/// Auto's submodes.
#[derive(Debug, Clone, Copy, PartialEq, Eq, Structural)]
pub enum AutoSubMode {
    /// 0: taking off.
    Takeoff,
    /// 1: flying to a waypoint.
    Wp,
    /// 2: landing.
    Land,
    /// 3: returning to launch.
    Rtl,
    /// 4: flying to the edge of a circle.
    CircleMoveToEdge,
    /// 5: circling.
    Circle,
    /// 6: guided from a companion.
    NavGuided,
    /// 7: loitering; where a fresh entry parks.
    Loiter,
    /// 8: loitering to an altitude.
    LoiterToAlt,
    /// 9: a scripted manoeuvre.
    NavScriptTime,
    /// 10: holding an attitude for a time.
    NavAttitudeTime,
    /// 11: placing a payload.
    NavPayloadPlace,
}

/// What entering Auto reads.
#[derive(Debug, Clone, Copy, PartialEq, Eq, Structural)]
pub struct AutoInitView {
    /// Whether a mission (home and at least one item) is loaded.
    pub mission_present: bool,
    /// Whether checks are ignored (as when disarmed).
    pub ignore_checks: bool,
    /// Whether the motors are armed.
    pub armed: bool,
    /// Whether the vehicle has landed.
    pub land_complete: bool,
    /// Whether the mission starts with a takeoff.
    pub starts_with_takeoff_cmd: bool,
    /// Whether the yaw mode is a region of interest.
    pub auto_yaw_is_roi: bool,
}

impl AutoInitView {
    /// Armed, in the air, a mission loaded, yaw not on a region of interest.
    pub fn airborne_with_mission() -> (r: AutoInitView)
        ensures
            r == (AutoInitView {
                mission_present: true,
                ignore_checks: false,
                armed: true,
                land_complete: false,
                starts_with_takeoff_cmd: true,
                auto_yaw_is_roi: false,
            }),
    {
        AutoInitView {
            mission_present: true,
            ignore_checks: false,
            armed: true,
            land_complete: false,
            starts_with_takeoff_cmd: true,
            auto_yaw_is_roi: false,
        }
    }

    /// Armed on the ground with a mission that does not start with a takeoff.
    pub fn landed_armed_without_takeoff() -> (r: AutoInitView)
        ensures
            r == (AutoInitView {
                mission_present: true,
                ignore_checks: false,
                armed: true,
                land_complete: true,
                starts_with_takeoff_cmd: false,
                auto_yaw_is_roi: false,
            }),
    {
        AutoInitView {
            mission_present: true,
            ignore_checks: false,
            armed: true,
            land_complete: true,
            starts_with_takeoff_cmd: false,
            auto_yaw_is_roi: false,
        }
    }

    /// No mission, checks enforced.
    pub fn no_mission() -> (r: AutoInitView)
        ensures
            r == (AutoInitView {
                mission_present: false,
                ignore_checks: false,
                armed: false,
                land_complete: true,
                starts_with_takeoff_cmd: false,
                auto_yaw_is_roi: false,
            }),
    {
        AutoInitView {
            mission_present: false,
            ignore_checks: false,
            armed: false,
            land_complete: true,
            starts_with_takeoff_cmd: false,
            auto_yaw_is_roi: false,
        }
    }
}

/// What entering Auto did. The speed overrides are always cleared (zero means
/// unset).
#[derive(Debug, Clone, Copy, PartialEq, Eq, Structural)]
pub struct AutoInit {
    /// Whether entry succeeded.
    pub ok: bool,
    /// The return-leg report: always cleared, before either refusal.
    pub auto_rtl: bool,
    /// Whether "missing takeoff command" was announced.
    pub missing_takeoff_cmd: bool,
    /// The submode after a successful entry.
    pub submode: Option<AutoSubMode>,
    /// Whether a leftover region-of-interest yaw was set to hold.
    pub hold_yaw_from_roi: bool,
    /// Whether the waypoint controller was set up.
    pub wp_and_spline_init: bool,
    /// Whether the mission waits for the origin before starting.
    pub waiting_to_start: bool,
    /// Whether the mission-change detector was primed.
    pub check_mission_change: bool,
    /// Whether Guided's limits were cleared.
    pub guided_limit_clear: bool,
    /// The repositioning flag afterwards: always false.
    pub land_repo_active: bool,
}

/// A refused entry: only the return-leg report was cleared.
pub open spec fn auto_init_refused(missing_takeoff_cmd: bool) -> AutoInit {
    AutoInit {
        ok: false,
        auto_rtl: false,
        missing_takeoff_cmd,
        submode: None,
        hold_yaw_from_roi: false,
        wp_and_spline_init: false,
        waiting_to_start: false,
        check_mission_change: false,
        guided_limit_clear: false,
        land_repo_active: false,
    }
}

/// Entering Auto: refused without a mission unless checks are ignored;
/// refused, with the announcement, when armed on the ground and the mission
/// does not start with a takeoff (even with checks ignored); otherwise parked
/// in Loiter, waiting to start.
pub open spec fn auto_init_outcome(v: AutoInitView) -> AutoInit {
    if !(v.mission_present || v.ignore_checks) {
        auto_init_refused(false)
    } else if v.armed && v.land_complete && !v.starts_with_takeoff_cmd {
        auto_init_refused(true)
    } else {
        AutoInit {
            ok: true,
            auto_rtl: false,
            missing_takeoff_cmd: false,
            submode: Some(AutoSubMode::Loiter),
            hold_yaw_from_roi: v.auto_yaw_is_roi,
            wp_and_spline_init: true,
            waiting_to_start: true,
            check_mission_change: true,
            guided_limit_clear: true,
            land_repo_active: false,
        }
    }
}

/// Entering Auto.
pub fn auto_init(view: &AutoInitView) -> (r: AutoInit)
    ensures
        r == auto_init_outcome(*view),
{
    let refused_no_mission = AutoInit {
        ok: false,
        auto_rtl: false,
        missing_takeoff_cmd: false,
        submode: None,
        hold_yaw_from_roi: false,
        wp_and_spline_init: false,
        waiting_to_start: false,
        check_mission_change: false,
        guided_limit_clear: false,
        land_repo_active: false,
    };
    if !(view.mission_present || view.ignore_checks) {
        return refused_no_mission;
    }
    if view.armed && view.land_complete && !view.starts_with_takeoff_cmd {
        return AutoInit { missing_takeoff_cmd: true, ..refused_no_mission };
    }
    AutoInit {
        ok: true,
        auto_rtl: false,
        missing_takeoff_cmd: false,
        submode: Some(AutoSubMode::Loiter),
        hold_yaw_from_roi: view.auto_yaw_is_roi,
        wp_and_spline_init: true,
        waiting_to_start: true,
        check_mission_change: true,
        guided_limit_clear: true,
        land_repo_active: false,
    }
}

/// The mode number Auto reports: Auto RTL while on the return leg.
pub fn auto_mode_number(auto_rtl: bool) -> (r: u8)
    ensures
        r == (if auto_rtl { MODE_NUMBER_AUTO_RTL } else { MODE_NUMBER_AUTO }),
{
    if auto_rtl {
        MODE_NUMBER_AUTO_RTL
    } else {
        MODE_NUMBER_AUTO
    }
}

/// Mission command: waypoint.
pub const MAV_CMD_NAV_WAYPOINT: u16 = 16;
/// Mission command: loiter without limit.
pub const MAV_CMD_NAV_LOITER_UNLIM: u16 = 17;
/// Mission command: loiter turns (circle).
pub const MAV_CMD_NAV_LOITER_TURNS: u16 = 18;
/// Mission command: loiter for a time.
pub const MAV_CMD_NAV_LOITER_TIME: u16 = 19;
/// Mission command: return to launch.
pub const MAV_CMD_NAV_RETURN_TO_LAUNCH: u16 = 20;
/// Mission command: land.
pub const MAV_CMD_NAV_LAND: u16 = 21;
/// Mission command: take off.
pub const MAV_CMD_NAV_TAKEOFF: u16 = 22;
/// Mission command: loiter to an altitude.
pub const MAV_CMD_NAV_LOITER_TO_ALT: u16 = 31;
/// Mission command: arc waypoint.
pub const MAV_CMD_NAV_ARC_WAYPOINT: u16 = 36;
/// Mission command: spline waypoint.
pub const MAV_CMD_NAV_SPLINE_WAYPOINT: u16 = 82;
/// Mission command: vertical takeoff.
pub const MAV_CMD_NAV_VTOL_TAKEOFF: u16 = 84;
/// Mission command: vertical landing.
pub const MAV_CMD_NAV_VTOL_LAND: u16 = 85;
/// Mission command: guided from a companion (when built in).
pub const MAV_CMD_NAV_GUIDED_ENABLE: u16 = 92;
/// Mission command: delay.
pub const MAV_CMD_NAV_DELAY: u16 = 93;
/// Mission command: place a payload (when built in).
pub const MAV_CMD_NAV_PAYLOAD_PLACE: u16 = 94;
/// Mission command: wait.
pub const MAV_CMD_CONDITION_DELAY: u16 = 112;
/// Mission command: wait for a distance.
pub const MAV_CMD_CONDITION_DISTANCE: u16 = 114;
/// Mission command: yaw.
pub const MAV_CMD_CONDITION_YAW: u16 = 115;
/// Mission command: change speed.
pub const MAV_CMD_DO_CHANGE_SPEED: u16 = 178;
/// Mission command: set home.
pub const MAV_CMD_DO_SET_HOME: u16 = 179;
/// Mission command: start of the return path (nothing to do in Auto).
pub const MAV_CMD_DO_RETURN_PATH_START: u16 = 188;
/// Mission command: start of the landing sequence (nothing to do in Auto).
pub const MAV_CMD_DO_LAND_START: u16 = 189;
/// Mission command: region of interest at a location.
pub const MAV_CMD_DO_SET_ROI_LOCATION: u16 = 195;
/// Mission command: no region of interest.
pub const MAV_CMD_DO_SET_ROI_NONE: u16 = 197;
/// Mission command: region of interest.
pub const MAV_CMD_DO_SET_ROI: u16 = 201;
/// Mission command: mount control (when built in).
pub const MAV_CMD_DO_MOUNT_CONTROL: u16 = 205;
/// Mission command: guided limits (when built in).
pub const MAV_CMD_DO_GUIDED_LIMITS: u16 = 222;
/// Mission command: winch (when built in).
pub const MAV_CMD_DO_WINCH: u16 = 42600;
/// Mission command: scripted manoeuvre (when built in).
pub const MAV_CMD_NAV_SCRIPT_TIME: u16 = 42702;
/// Mission command: hold an attitude for a time.
pub const MAV_CMD_NAV_ATTITUDE_TIME: u16 = 42703;

/// Which optional command handlers are built in. A command whose handler is
/// not built in counts as unknown.
#[derive(Debug, Clone, Copy, PartialEq, Eq, Structural)]
pub struct AutoStartFeatures {
    /// Guided from a companion, and guided limits.
    pub nav_guided: bool,
    /// Payload placing.
    pub payload_place: bool,
    /// Scripting.
    pub scripting: bool,
    /// Mount control.
    pub mount: bool,
    /// Winch.
    pub winch: bool,
}

impl AutoStartFeatures {
    /// None of the optional handlers.
    pub fn none() -> (r: AutoStartFeatures)
        ensures
            r == (AutoStartFeatures {
                nav_guided: false,
                payload_place: false,
                scripting: false,
                mount: false,
                winch: false,
            }),
    {
        AutoStartFeatures {
            nav_guided: false,
            payload_place: false,
            scripting: false,
            mount: false,
            winch: false,
        }
    }

    /// All of them.
    pub fn all() -> (r: AutoStartFeatures)
        ensures
            r == (AutoStartFeatures {
                nav_guided: true,
                payload_place: true,
                scripting: true,
                mount: true,
                winch: true,
            }),
    {
        AutoStartFeatures {
            nav_guided: true,
            payload_place: true,
            scripting: true,
            mount: true,
            winch: true,
        }
    }
}

/// Which handler starts a mission command.
#[derive(Debug, Clone, Copy, PartialEq, Eq, Structural)]
pub enum AutoStartHandler {
    /// Take off (also vertical takeoff).
    DoTakeoff,
    /// Fly to a waypoint (also arc waypoints).
    DoNavWp,
    /// Land (also vertical landing).
    DoLand,
    /// Loiter without limit.
    DoLoiterUnlimited,
    /// Circle.
    DoCircle,
    /// Loiter for a time.
    DoLoiterTime,
    /// Loiter to an altitude.
    DoLoiterToAlt,
    /// Return to launch.
    DoRtl,
    /// Spline waypoint.
    DoSplineWp,
    /// Guided from a companion.
    DoNavGuidedEnable,
    /// Delay.
    DoNavDelay,
    /// Place a payload.
    DoPayloadPlace,
    /// Scripted manoeuvre.
    DoNavScriptTime,
    /// Hold an attitude.
    DoNavAttitudeTime,
    /// Wait.
    DoWaitDelay,
    /// Wait for a distance.
    DoWithinDistance,
    /// Yaw.
    DoYaw,
    /// Change speed.
    DoChangeSpeed,
    /// Set home.
    DoSetHome,
    /// Region of interest (all three forms).
    DoRoi,
    /// Mount control.
    DoMountControl,
    /// Guided limits.
    DoGuidedLimits,
    /// Winch.
    DoWinch,
    /// Known, nothing to do.
    NoOp,
    /// Unknown: refused, so the mission can try the next command.
    Unknown,
}

/// The result of starting a mission command.
#[derive(Debug, Clone, Copy, PartialEq, Eq, Structural)]
pub struct AutoStartCommand {
    /// Whether the command was accepted: false only for an unknown one.
    pub accepted: bool,
    /// Which handler runs.
    pub handler: AutoStartHandler,
}

/// The handler a command starts, `Unknown` for a command not known or not
/// built in.
pub open spec fn start_handler(cmd_id: u16, f: AutoStartFeatures) -> AutoStartHandler {
    if cmd_id == MAV_CMD_NAV_VTOL_TAKEOFF || cmd_id == MAV_CMD_NAV_TAKEOFF {
        AutoStartHandler::DoTakeoff
    } else if cmd_id == MAV_CMD_NAV_WAYPOINT || cmd_id == MAV_CMD_NAV_ARC_WAYPOINT {
        AutoStartHandler::DoNavWp
    } else if cmd_id == MAV_CMD_NAV_VTOL_LAND || cmd_id == MAV_CMD_NAV_LAND {
        AutoStartHandler::DoLand
    } else if cmd_id == MAV_CMD_NAV_LOITER_UNLIM {
        AutoStartHandler::DoLoiterUnlimited
    } else if cmd_id == MAV_CMD_NAV_LOITER_TURNS {
        AutoStartHandler::DoCircle
    } else if cmd_id == MAV_CMD_NAV_LOITER_TIME {
        AutoStartHandler::DoLoiterTime
    } else if cmd_id == MAV_CMD_NAV_LOITER_TO_ALT {
        AutoStartHandler::DoLoiterToAlt
    } else if cmd_id == MAV_CMD_NAV_RETURN_TO_LAUNCH {
        AutoStartHandler::DoRtl
    } else if cmd_id == MAV_CMD_NAV_SPLINE_WAYPOINT {
        AutoStartHandler::DoSplineWp
    } else if cmd_id == MAV_CMD_NAV_GUIDED_ENABLE && f.nav_guided {
        AutoStartHandler::DoNavGuidedEnable
    } else if cmd_id == MAV_CMD_NAV_DELAY {
        AutoStartHandler::DoNavDelay
    } else if cmd_id == MAV_CMD_NAV_PAYLOAD_PLACE && f.payload_place {
        AutoStartHandler::DoPayloadPlace
    } else if cmd_id == MAV_CMD_NAV_SCRIPT_TIME && f.scripting {
        AutoStartHandler::DoNavScriptTime
    } else if cmd_id == MAV_CMD_NAV_ATTITUDE_TIME {
        AutoStartHandler::DoNavAttitudeTime
    } else if cmd_id == MAV_CMD_CONDITION_DELAY {
        AutoStartHandler::DoWaitDelay
    } else if cmd_id == MAV_CMD_CONDITION_DISTANCE {
        AutoStartHandler::DoWithinDistance
    } else if cmd_id == MAV_CMD_CONDITION_YAW {
        AutoStartHandler::DoYaw
    } else if cmd_id == MAV_CMD_DO_CHANGE_SPEED {
        AutoStartHandler::DoChangeSpeed
    } else if cmd_id == MAV_CMD_DO_SET_HOME {
        AutoStartHandler::DoSetHome
    } else if cmd_id == MAV_CMD_DO_SET_ROI_LOCATION || cmd_id == MAV_CMD_DO_SET_ROI_NONE || cmd_id
        == MAV_CMD_DO_SET_ROI {
        AutoStartHandler::DoRoi
    } else if cmd_id == MAV_CMD_DO_MOUNT_CONTROL && f.mount {
        AutoStartHandler::DoMountControl
    } else if cmd_id == MAV_CMD_DO_GUIDED_LIMITS && f.nav_guided {
        AutoStartHandler::DoGuidedLimits
    } else if cmd_id == MAV_CMD_DO_WINCH && f.winch {
        AutoStartHandler::DoWinch
    } else if cmd_id == MAV_CMD_DO_RETURN_PATH_START || cmd_id == MAV_CMD_DO_LAND_START {
        AutoStartHandler::NoOp
    } else {
        AutoStartHandler::Unknown
    }
}

fn accept(handler: AutoStartHandler) -> (r: AutoStartCommand)
    ensures
        r == (AutoStartCommand { accepted: true, handler }),
{
    AutoStartCommand { accepted: true, handler }
}

fn gated_start(on: bool, handler: AutoStartHandler) -> (r: AutoStartCommand)
    ensures
        on ==> r == (AutoStartCommand { accepted: true, handler }),
        !on ==> r == (AutoStartCommand { accepted: false, handler: AutoStartHandler::Unknown }),
{
    if on {
        AutoStartCommand { accepted: true, handler }
    } else {
        AutoStartCommand { accepted: false, handler: AutoStartHandler::Unknown }
    }
}

/// Starting a mission command: the handler it selects, accepted unless the
/// command is unknown (or its handler not built in).
pub fn auto_start_command(cmd_id: u16, features: AutoStartFeatures) -> (r: AutoStartCommand)
    ensures
        r.handler == start_handler(cmd_id, features),
        r.accepted == (r.handler != AutoStartHandler::Unknown),
{
    match cmd_id {
        MAV_CMD_NAV_VTOL_TAKEOFF | MAV_CMD_NAV_TAKEOFF => accept(AutoStartHandler::DoTakeoff),
        MAV_CMD_NAV_WAYPOINT | MAV_CMD_NAV_ARC_WAYPOINT => accept(AutoStartHandler::DoNavWp),
        MAV_CMD_NAV_VTOL_LAND | MAV_CMD_NAV_LAND => accept(AutoStartHandler::DoLand),
        MAV_CMD_NAV_LOITER_UNLIM => accept(AutoStartHandler::DoLoiterUnlimited),
        MAV_CMD_NAV_LOITER_TURNS => accept(AutoStartHandler::DoCircle),
        MAV_CMD_NAV_LOITER_TIME => accept(AutoStartHandler::DoLoiterTime),
        MAV_CMD_NAV_LOITER_TO_ALT => accept(AutoStartHandler::DoLoiterToAlt),
        MAV_CMD_NAV_RETURN_TO_LAUNCH => accept(AutoStartHandler::DoRtl),
        MAV_CMD_NAV_SPLINE_WAYPOINT => accept(AutoStartHandler::DoSplineWp),
        MAV_CMD_NAV_GUIDED_ENABLE => gated_start(
            features.nav_guided,
            AutoStartHandler::DoNavGuidedEnable,
        ),
        MAV_CMD_NAV_DELAY => accept(AutoStartHandler::DoNavDelay),
        MAV_CMD_NAV_PAYLOAD_PLACE => gated_start(
            features.payload_place,
            AutoStartHandler::DoPayloadPlace,
        ),
        MAV_CMD_NAV_SCRIPT_TIME => gated_start(features.scripting, AutoStartHandler::DoNavScriptTime),
        MAV_CMD_NAV_ATTITUDE_TIME => accept(AutoStartHandler::DoNavAttitudeTime),
        MAV_CMD_CONDITION_DELAY => accept(AutoStartHandler::DoWaitDelay),
        MAV_CMD_CONDITION_DISTANCE => accept(AutoStartHandler::DoWithinDistance),
        MAV_CMD_CONDITION_YAW => accept(AutoStartHandler::DoYaw),
        MAV_CMD_DO_CHANGE_SPEED => accept(AutoStartHandler::DoChangeSpeed),
        MAV_CMD_DO_SET_HOME => accept(AutoStartHandler::DoSetHome),
        MAV_CMD_DO_SET_ROI_LOCATION | MAV_CMD_DO_SET_ROI_NONE | MAV_CMD_DO_SET_ROI => accept(
            AutoStartHandler::DoRoi,
        ),
        MAV_CMD_DO_MOUNT_CONTROL => gated_start(features.mount, AutoStartHandler::DoMountControl),
        MAV_CMD_DO_GUIDED_LIMITS => gated_start(features.nav_guided, AutoStartHandler::DoGuidedLimits),
        MAV_CMD_DO_WINCH => gated_start(features.winch, AutoStartHandler::DoWinch),
        MAV_CMD_DO_RETURN_PATH_START | MAV_CMD_DO_LAND_START => accept(AutoStartHandler::NoOp),
        _ => AutoStartCommand { accepted: false, handler: AutoStartHandler::Unknown },
    }
}

/// The text Auto sends when the mission changes under a waypoint.
#[derive(Debug, Clone, Copy, PartialEq, Eq, Structural)]
pub enum AutoMissionChangeText {
    /// No text.
    Silent,
    /// "Auto mission changed, restarted command".
    Restarted,
    /// "Auto mission changed but failed to restart command".
    RestartFailed,
}

/// Which submode body runs this pass.
#[derive(Debug, Clone, Copy, PartialEq, Eq, Structural)]
pub enum AutoRunBody {
    /// Takeoff.
    Takeoff,
    /// Waypoint (also flying to a circle's edge).
    Wp,
    /// Land.
    Land,
    /// Return to launch.
    Rtl,
    /// Circle.
    Circle,
    /// Guided from a companion (also scripted manoeuvres), when built in.
    NavGuided,
    /// Loiter.
    Loiter,
    /// Loiter to an altitude.
    LoiterToAlt,
    /// Attitude hold.
    NavAttitudeTime,
    /// Payload placing.
    PayloadPlace,
    /// A submode whose body is not built in: nothing runs.
    Idle,
}

/// What one pass of Auto reads.
#[derive(Debug, Clone, Copy, PartialEq, Eq, Structural)]
pub struct AutoRunView {
    /// Whether the mission is waiting to start.
    pub waiting_to_start: bool,
    /// Whether the position origin exists.
    pub has_origin: bool,
    /// Whether the mission changed.
    pub mission_changed: bool,
    /// Whether the mission is running.
    pub mission_running: bool,
    /// The submode.
    pub submode: AutoSubMode,
    /// Whether restarting the current navigation command would succeed.
    pub restart_current_nav_cmd: bool,
    /// Whether Auto is reporting its return leg.
    pub auto_rtl: bool,
    /// Whether the mission is in its landing sequence.
    pub in_landing_sequence: bool,
    /// Whether the mission is on its return path.
    pub in_return_path: bool,
    /// Whether the mission is complete.
    pub mission_complete: bool,
    /// Whether guided-from-companion or scripting is built in.
    pub nav_guided_or_scripting: bool,
}

impl AutoRunView {
    /// Just entered: parked in Loiter, waiting, no origin yet.
    pub fn waiting_no_origin() -> (r: AutoRunView)
        ensures
            r == (AutoRunView {
                waiting_to_start: true,
                has_origin: false,
                mission_changed: false,
                mission_running: false,
                submode: AutoSubMode::Loiter,
                restart_current_nav_cmd: false,
                auto_rtl: false,
                in_landing_sequence: false,
                in_return_path: false,
                mission_complete: false,
                nav_guided_or_scripting: true,
            }),
    {
        AutoRunView {
            waiting_to_start: true,
            has_origin: false,
            mission_changed: false,
            mission_running: false,
            submode: AutoSubMode::Loiter,
            restart_current_nav_cmd: false,
            auto_rtl: false,
            in_landing_sequence: false,
            in_return_path: false,
            mission_complete: false,
            nav_guided_or_scripting: true,
        }
    }

    /// Just entered, and the origin has arrived.
    pub fn waiting_with_origin() -> (r: AutoRunView)
        ensures
            r == (AutoRunView { has_origin: true, ..AutoRunView::waiting_no_origin_spec() }),
    {
        let mut view = AutoRunView::waiting_no_origin();
        view.has_origin = true;
        view
    }

    /// The view of a fresh entry without origin.
    pub open spec fn waiting_no_origin_spec() -> AutoRunView {
        AutoRunView {
            waiting_to_start: true,
            has_origin: false,
            mission_changed: false,
            mission_running: false,
            submode: AutoSubMode::Loiter,
            restart_current_nav_cmd: false,
            auto_rtl: false,
            in_landing_sequence: false,
            in_return_path: false,
            mission_complete: false,
            nav_guided_or_scripting: true,
        }
    }

    /// The mission running a waypoint, unchanged.
    pub fn running_wp() -> (r: AutoRunView)
        ensures
            r == (AutoRunView {
                waiting_to_start: false,
                has_origin: true,
                mission_changed: false,
                mission_running: true,
                submode: AutoSubMode::Wp,
                restart_current_nav_cmd: true,
                auto_rtl: false,
                in_landing_sequence: false,
                in_return_path: false,
                mission_complete: false,
                nav_guided_or_scripting: true,
            }),
    {
        AutoRunView {
            waiting_to_start: false,
            has_origin: true,
            mission_changed: false,
            mission_running: true,
            submode: AutoSubMode::Wp,
            restart_current_nav_cmd: true,
            auto_rtl: false,
            in_landing_sequence: false,
            in_return_path: false,
            mission_complete: false,
            nav_guided_or_scripting: true,
        }
    }
}

/// What one pass of Auto did.
#[derive(Debug, Clone, Copy, PartialEq, Eq, Structural)]
pub struct AutoRun {
    /// Whether the mission was started (or resumed).
    pub start_or_resume: bool,
    /// Whether the mission still waits to start.
    pub waiting_to_start: bool,
    /// Whether the mission-change detector ran.
    pub check_mission_change: bool,
    /// Whether the current navigation command was restarted.
    pub restart_current_nav_cmd: bool,
    /// The text sent after a mission change.
    pub mission_change_text: AutoMissionChangeText,
    /// Whether the mission was updated.
    pub mission_update: bool,
    /// Which submode body ran.
    pub body: AutoRunBody,
    /// Whether the return-leg report stays.
    pub auto_rtl: bool,
    /// Whether the end of the return leg is logged.
    pub log_auto_rtl_exit: bool,
}

/// The body a submode runs.
pub open spec fn run_body(submode: AutoSubMode, nav_guided_or_scripting: bool) -> AutoRunBody {
    match submode {
        AutoSubMode::Takeoff => AutoRunBody::Takeoff,
        AutoSubMode::Wp | AutoSubMode::CircleMoveToEdge => AutoRunBody::Wp,
        AutoSubMode::Land => AutoRunBody::Land,
        AutoSubMode::Rtl => AutoRunBody::Rtl,
        AutoSubMode::Circle => AutoRunBody::Circle,
        AutoSubMode::NavGuided | AutoSubMode::NavScriptTime => if nav_guided_or_scripting {
            AutoRunBody::NavGuided
        } else {
            AutoRunBody::Idle
        },
        AutoSubMode::Loiter => AutoRunBody::Loiter,
        AutoSubMode::LoiterToAlt => AutoRunBody::LoiterToAlt,
        AutoSubMode::NavAttitudeTime => AutoRunBody::NavAttitudeTime,
        AutoSubMode::NavPayloadPlace => AutoRunBody::PayloadPlace,
    }
}

/// One pass of Auto. Waiting: start the mission once the origin exists, and
/// nothing else. Running: check for a mission change (restarting the command
/// only under a waypoint) and update the mission. Either way the submode's
/// body runs, and the return-leg report drops as soon as the mission is no
/// longer landing, returning or complete.
pub open spec fn auto_run_outcome(v: AutoRunView) -> AutoRun {
    let restart = !v.waiting_to_start && v.mission_changed && v.mission_running && v.submode
        == AutoSubMode::Wp;
    let still = v.in_landing_sequence || v.in_return_path || v.mission_complete;
    AutoRun {
        start_or_resume: v.waiting_to_start && v.has_origin,
        waiting_to_start: v.waiting_to_start && !v.has_origin,
        check_mission_change: !v.waiting_to_start || v.has_origin,
        restart_current_nav_cmd: restart,
        mission_change_text: if !restart {
            AutoMissionChangeText::Silent
        } else if v.restart_current_nav_cmd {
            AutoMissionChangeText::Restarted
        } else {
            AutoMissionChangeText::RestartFailed
        },
        mission_update: !v.waiting_to_start,
        body: run_body(v.submode, v.nav_guided_or_scripting),
        auto_rtl: v.auto_rtl && still,
        log_auto_rtl_exit: v.auto_rtl && !still,
    }
}

/// One pass of Auto.
pub fn auto_run(view: &AutoRunView) -> (r: AutoRun)
    ensures
        r == auto_run_outcome(*view),
{
    let mut start_or_resume = false;
    let mut waiting_to_start = view.waiting_to_start;
    let mut check_mission_change = false;
    let mut restart_current_nav_cmd = false;
    let mut mission_change_text = AutoMissionChangeText::Silent;
    let mut mission_update = false;
    if view.waiting_to_start {
        if view.has_origin {
            start_or_resume = true;
            waiting_to_start = false;
            check_mission_change = true;
        }
    } else {
        check_mission_change = true;
        let in_wp = match view.submode {
            AutoSubMode::Wp => true,
            _ => false,
        };
        if view.mission_changed && view.mission_running && in_wp {
            restart_current_nav_cmd = true;
            mission_change_text = if view.restart_current_nav_cmd {
                AutoMissionChangeText::Restarted
            } else {
                AutoMissionChangeText::RestartFailed
            };
        }
        mission_update = true;
    }
    let body = match view.submode {
        AutoSubMode::Takeoff => AutoRunBody::Takeoff,
        AutoSubMode::Wp | AutoSubMode::CircleMoveToEdge => AutoRunBody::Wp,
        AutoSubMode::Land => AutoRunBody::Land,
        AutoSubMode::Rtl => AutoRunBody::Rtl,
        AutoSubMode::Circle => AutoRunBody::Circle,
        AutoSubMode::NavGuided | AutoSubMode::NavScriptTime => {
            if view.nav_guided_or_scripting {
                AutoRunBody::NavGuided
            } else {
                AutoRunBody::Idle
            }
        },
        AutoSubMode::Loiter => AutoRunBody::Loiter,
        AutoSubMode::LoiterToAlt => AutoRunBody::LoiterToAlt,
        AutoSubMode::NavAttitudeTime => AutoRunBody::NavAttitudeTime,
        AutoSubMode::NavPayloadPlace => AutoRunBody::PayloadPlace,
    };
    let auto_rtl_active = view.in_landing_sequence || view.in_return_path || view.mission_complete;
    let log_auto_rtl_exit = view.auto_rtl && !auto_rtl_active;
    let auto_rtl = view.auto_rtl && auto_rtl_active;
    AutoRun {
        start_or_resume,
        waiting_to_start,
        check_mission_change,
        restart_current_nav_cmd,
        mission_change_text,
        mission_update,
        body,
        auto_rtl,
        log_auto_rtl_exit,
    }
}

/// Entering Auto parks it waiting in Loiter; the mission then starts on the
/// first pass that has an origin, and never again: once started it no longer
/// waits, and a pass that is not waiting never starts it.
pub proof fn lemma_mission_starts_once(v: AutoRunView)
    ensures
        auto_run_outcome(v).start_or_resume ==> !auto_run_outcome(v).waiting_to_start,
        !v.waiting_to_start ==> !auto_run_outcome(v).start_or_resume,
        v.waiting_to_start ==> !auto_run_outcome(v).mission_update,
{
}

/// A successful entry always waits, in Loiter, for the mission to start; and
/// the report of the return leg is never switched on by a pass of Auto.
pub proof fn lemma_entry_waits_and_auto_rtl_only_drops(i: AutoInitView, v: AutoRunView)
    ensures
        auto_init_outcome(i).ok ==> auto_init_outcome(i).waiting_to_start
            && auto_init_outcome(i).submode == Some(AutoSubMode::Loiter),
        !auto_init_outcome(i).auto_rtl,
        auto_run_outcome(v).auto_rtl ==> v.auto_rtl,
{
}

/// Armed on the ground, Auto is entered only with a mission that starts with
/// a takeoff, whatever the checks flag says.
pub proof fn lemma_no_ground_start_without_takeoff(i: AutoInitView)
    requires
        i.armed,
        i.land_complete,
        auto_init_outcome(i).ok,
    ensures
        i.starts_with_takeoff_cmd,
{
}

/// A mission command is accepted at start exactly when verifying it in Auto
/// is not skipping it as invalid: the two dispatches know the same commands,
/// with the same optional handlers.
pub proof fn lemma_start_and_verify_know_the_same_commands(cmd_id: u16, f: AutoStartFeatures)
    ensures
        (start_handler(cmd_id, f) != AutoStartHandler::Unknown) <==> (verify_handler(cmd_id, f)
            != AutoVerifyHandler::SkipInvalid),
{
}

} // verus!
