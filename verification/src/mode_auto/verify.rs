//! The checks that say when Auto's mission commands are complete.

use vstd::prelude::*;
use super::{
    AutoStartFeatures, AutoSubMode, MAV_CMD_CONDITION_DELAY, MAV_CMD_CONDITION_DISTANCE,
    MAV_CMD_CONDITION_YAW, MAV_CMD_DO_CHANGE_SPEED, MAV_CMD_DO_GUIDED_LIMITS,
    MAV_CMD_DO_LAND_START, MAV_CMD_DO_MOUNT_CONTROL, MAV_CMD_DO_RETURN_PATH_START,
    MAV_CMD_DO_SET_HOME, MAV_CMD_DO_SET_ROI, MAV_CMD_DO_SET_ROI_LOCATION, MAV_CMD_DO_SET_ROI_NONE,
    MAV_CMD_DO_WINCH, MAV_CMD_NAV_ARC_WAYPOINT, MAV_CMD_NAV_ATTITUDE_TIME, MAV_CMD_NAV_DELAY,
    MAV_CMD_NAV_GUIDED_ENABLE, MAV_CMD_NAV_LAND, MAV_CMD_NAV_LOITER_TIME, MAV_CMD_NAV_LOITER_TO_ALT,
    MAV_CMD_NAV_LOITER_TURNS, MAV_CMD_NAV_LOITER_UNLIM, MAV_CMD_NAV_PAYLOAD_PLACE,
    MAV_CMD_NAV_RETURN_TO_LAUNCH, MAV_CMD_NAV_SCRIPT_TIME, MAV_CMD_NAV_SPLINE_WAYPOINT,
    MAV_CMD_NAV_TAKEOFF, MAV_CMD_NAV_VTOL_LAND, MAV_CMD_NAV_VTOL_TAKEOFF, MAV_CMD_NAV_WAYPOINT,
};
use super::starts::{circle_start_yaw, AutoCircleYaw, PayloadPlaceState};

verus! {

/// Which check verifies a mission command.
#[derive(Debug, Clone, Copy, PartialEq, Eq, Structural)]
pub enum AutoVerifyHandler {
    /// Not in Auto: nothing runs.
    NotInAuto,
    /// Takeoff.
    VerifyTakeoff,
    /// Waypoint.
    VerifyNavWp,
    /// Land.
    VerifyLand,
    /// Payload placing.
    VerifyPayloadPlace,
    /// Unlimited loiter.
    VerifyLoiterUnlimited,
    /// Circle.
    VerifyCircle,
    /// Timed loiter.
    VerifyLoiterTime,
    /// Loiter to an altitude (returns its answer directly).
    VerifyLoiterToAlt,
    /// Return to launch.
    VerifyRtl,
    /// Spline waypoint.
    VerifySplineWp,
    /// Guided from a companion.
    VerifyNavGuidedEnable,
    /// Delay.
    VerifyNavDelay,
    /// Scripted manoeuvre.
    VerifyNavScriptTime,
    /// Attitude hold.
    VerifyNavAttitudeTime,
    /// Wait.
    VerifyWaitDelay,
    /// Wait for a distance.
    VerifyWithinDistance,
    /// Yaw.
    VerifyYaw,
    /// A "do" command: complete at once.
    DoAlwaysComplete,
    /// Unknown: "skipping invalid cmd", and complete.
    SkipInvalid,
}

/// The result of verifying a mission command.
#[derive(Debug, Clone, Copy, PartialEq, Eq, Structural)]
pub struct AutoVerifyCommand {
    /// Whether the check ran (the vehicle was in Auto).
    pub ran: bool,
    /// Which check.
    pub handler: AutoVerifyHandler,
    /// Whether the command completes without a check.
    pub immediate_complete: bool,
    /// Whether the check's answer is returned directly, without the "reached"
    /// message.
    pub early_return: bool,
    /// Whether "skipping invalid cmd" is sent.
    pub skip_invalid_text: bool,
}

/// The check a command selects in Auto.
pub open spec fn verify_handler(cmd_id: u16, f: AutoStartFeatures) -> AutoVerifyHandler {
    if cmd_id == MAV_CMD_NAV_TAKEOFF || cmd_id == MAV_CMD_NAV_VTOL_TAKEOFF {
        AutoVerifyHandler::VerifyTakeoff
    } else if cmd_id == MAV_CMD_NAV_WAYPOINT || cmd_id == MAV_CMD_NAV_ARC_WAYPOINT {
        AutoVerifyHandler::VerifyNavWp
    } else if cmd_id == MAV_CMD_NAV_LAND || cmd_id == MAV_CMD_NAV_VTOL_LAND {
        AutoVerifyHandler::VerifyLand
    } else if cmd_id == MAV_CMD_NAV_PAYLOAD_PLACE && f.payload_place {
        AutoVerifyHandler::VerifyPayloadPlace
    } else if cmd_id == MAV_CMD_NAV_LOITER_UNLIM {
        AutoVerifyHandler::VerifyLoiterUnlimited
    } else if cmd_id == MAV_CMD_NAV_LOITER_TURNS {
        AutoVerifyHandler::VerifyCircle
    } else if cmd_id == MAV_CMD_NAV_LOITER_TIME {
        AutoVerifyHandler::VerifyLoiterTime
    } else if cmd_id == MAV_CMD_NAV_LOITER_TO_ALT {
        AutoVerifyHandler::VerifyLoiterToAlt
    } else if cmd_id == MAV_CMD_NAV_RETURN_TO_LAUNCH {
        AutoVerifyHandler::VerifyRtl
    } else if cmd_id == MAV_CMD_NAV_SPLINE_WAYPOINT {
        AutoVerifyHandler::VerifySplineWp
    } else if cmd_id == MAV_CMD_NAV_GUIDED_ENABLE && f.nav_guided {
        AutoVerifyHandler::VerifyNavGuidedEnable
    } else if cmd_id == MAV_CMD_NAV_DELAY {
        AutoVerifyHandler::VerifyNavDelay
    } else if cmd_id == MAV_CMD_NAV_SCRIPT_TIME && f.scripting {
        AutoVerifyHandler::VerifyNavScriptTime
    } else if cmd_id == MAV_CMD_NAV_ATTITUDE_TIME {
        AutoVerifyHandler::VerifyNavAttitudeTime
    } else if cmd_id == MAV_CMD_CONDITION_DELAY {
        AutoVerifyHandler::VerifyWaitDelay
    } else if cmd_id == MAV_CMD_CONDITION_DISTANCE {
        AutoVerifyHandler::VerifyWithinDistance
    } else if cmd_id == MAV_CMD_CONDITION_YAW {
        AutoVerifyHandler::VerifyYaw
    } else if cmd_id == MAV_CMD_DO_CHANGE_SPEED || cmd_id == MAV_CMD_DO_SET_HOME || cmd_id
        == MAV_CMD_DO_SET_ROI_LOCATION || cmd_id == MAV_CMD_DO_SET_ROI_NONE || cmd_id
        == MAV_CMD_DO_SET_ROI || cmd_id == MAV_CMD_DO_RETURN_PATH_START || cmd_id
        == MAV_CMD_DO_LAND_START || (cmd_id == MAV_CMD_DO_MOUNT_CONTROL && f.mount) || (cmd_id
        == MAV_CMD_DO_GUIDED_LIMITS && f.nav_guided) || (cmd_id == MAV_CMD_DO_WINCH && f.winch) {
        AutoVerifyHandler::DoAlwaysComplete
    } else {
        AutoVerifyHandler::SkipInvalid
    }
}

fn verify_body(handler: AutoVerifyHandler) -> (r: AutoVerifyCommand)
    ensures
        r == (AutoVerifyCommand {
            ran: true,
            handler,
            immediate_complete: false,
            early_return: false,
            skip_invalid_text: false,
        }),
{
    AutoVerifyCommand {
        ran: true,
        handler,
        immediate_complete: false,
        early_return: false,
        skip_invalid_text: false,
    }
}

fn verify_immediate(handler: AutoVerifyHandler, skip_invalid_text: bool) -> (r: AutoVerifyCommand)
    ensures
        r == (AutoVerifyCommand {
            ran: true,
            handler,
            immediate_complete: true,
            early_return: false,
            skip_invalid_text,
        }),
{
    AutoVerifyCommand { ran: true, handler, immediate_complete: true, early_return: false, skip_invalid_text }
}

fn verify_gated(on: bool, handler: AutoVerifyHandler) -> (r: AutoVerifyCommand)
    ensures
        on ==> r == (AutoVerifyCommand {
            ran: true,
            handler,
            immediate_complete: false,
            early_return: false,
            skip_invalid_text: false,
        }),
        !on ==> r == (AutoVerifyCommand {
            ran: true,
            handler: AutoVerifyHandler::SkipInvalid,
            immediate_complete: true,
            early_return: false,
            skip_invalid_text: true,
        }),
{
    if on {
        verify_body(handler)
    } else {
        verify_immediate(AutoVerifyHandler::SkipInvalid, true)
    }
}

fn verify_gated_do(on: bool) -> (r: AutoVerifyCommand)
    ensures
        r == (AutoVerifyCommand {
            ran: true,
            handler: if on { AutoVerifyHandler::DoAlwaysComplete } else { AutoVerifyHandler::SkipInvalid },
            immediate_complete: true,
            early_return: false,
            skip_invalid_text: !on,
        }),
{
    if on {
        verify_immediate(AutoVerifyHandler::DoAlwaysComplete, false)
    } else {
        verify_immediate(AutoVerifyHandler::SkipInvalid, true)
    }
}

/// Verifying a mission command: outside Auto nothing runs; a "do" command or
/// an unknown one completes at once (the unknown one announced as skipped);
/// loiter to an altitude returns its answer directly; every other command has
/// its check.
pub fn auto_verify_command(in_auto: bool, cmd_id: u16, features: AutoStartFeatures) -> (r:
    AutoVerifyCommand)
    ensures
        !in_auto ==> r == (AutoVerifyCommand {
            ran: false,
            handler: AutoVerifyHandler::NotInAuto,
            immediate_complete: false,
            early_return: false,
            skip_invalid_text: false,
        }),
        in_auto ==> r.ran && r.handler == verify_handler(cmd_id, features),
        in_auto ==> r.immediate_complete == (r.handler == AutoVerifyHandler::DoAlwaysComplete
            || r.handler == AutoVerifyHandler::SkipInvalid),
        in_auto ==> r.skip_invalid_text == (r.handler == AutoVerifyHandler::SkipInvalid),
        in_auto ==> r.early_return == (r.handler == AutoVerifyHandler::VerifyLoiterToAlt),
{
    if !in_auto {
        return AutoVerifyCommand {
            ran: false,
            handler: AutoVerifyHandler::NotInAuto,
            immediate_complete: false,
            early_return: false,
            skip_invalid_text: false,
        };
    }
    match cmd_id {
        MAV_CMD_NAV_TAKEOFF | MAV_CMD_NAV_VTOL_TAKEOFF => verify_body(AutoVerifyHandler::VerifyTakeoff),
        MAV_CMD_NAV_WAYPOINT | MAV_CMD_NAV_ARC_WAYPOINT => verify_body(AutoVerifyHandler::VerifyNavWp),
        MAV_CMD_NAV_LAND | MAV_CMD_NAV_VTOL_LAND => verify_body(AutoVerifyHandler::VerifyLand),
        MAV_CMD_NAV_PAYLOAD_PLACE => verify_gated(
            features.payload_place,
            AutoVerifyHandler::VerifyPayloadPlace,
        ),
        MAV_CMD_NAV_LOITER_UNLIM => verify_body(AutoVerifyHandler::VerifyLoiterUnlimited),
        MAV_CMD_NAV_LOITER_TURNS => verify_body(AutoVerifyHandler::VerifyCircle),
        MAV_CMD_NAV_LOITER_TIME => verify_body(AutoVerifyHandler::VerifyLoiterTime),
        MAV_CMD_NAV_LOITER_TO_ALT => AutoVerifyCommand {
            ran: true,
            handler: AutoVerifyHandler::VerifyLoiterToAlt,
            immediate_complete: false,
            early_return: true,
            skip_invalid_text: false,
        },
        MAV_CMD_NAV_RETURN_TO_LAUNCH => verify_body(AutoVerifyHandler::VerifyRtl),
        MAV_CMD_NAV_SPLINE_WAYPOINT => verify_body(AutoVerifyHandler::VerifySplineWp),
        MAV_CMD_NAV_GUIDED_ENABLE => verify_gated(
            features.nav_guided,
            AutoVerifyHandler::VerifyNavGuidedEnable,
        ),
        MAV_CMD_NAV_DELAY => verify_body(AutoVerifyHandler::VerifyNavDelay),
        MAV_CMD_NAV_SCRIPT_TIME => verify_gated(
            features.scripting,
            AutoVerifyHandler::VerifyNavScriptTime,
        ),
        MAV_CMD_NAV_ATTITUDE_TIME => verify_body(AutoVerifyHandler::VerifyNavAttitudeTime),
        MAV_CMD_CONDITION_DELAY => verify_body(AutoVerifyHandler::VerifyWaitDelay),
        MAV_CMD_CONDITION_DISTANCE => verify_body(AutoVerifyHandler::VerifyWithinDistance),
        MAV_CMD_CONDITION_YAW => verify_body(AutoVerifyHandler::VerifyYaw),
        MAV_CMD_DO_CHANGE_SPEED | MAV_CMD_DO_SET_HOME | MAV_CMD_DO_SET_ROI_LOCATION
        | MAV_CMD_DO_SET_ROI_NONE | MAV_CMD_DO_SET_ROI | MAV_CMD_DO_RETURN_PATH_START
        | MAV_CMD_DO_LAND_START => verify_immediate(AutoVerifyHandler::DoAlwaysComplete, false),
        MAV_CMD_DO_MOUNT_CONTROL => verify_gated_do(features.mount),
        MAV_CMD_DO_GUIDED_LIMITS => verify_gated_do(features.nav_guided),
        MAV_CMD_DO_WINCH => verify_gated_do(features.winch),
        _ => verify_immediate(AutoVerifyHandler::SkipInvalid, true),
    }
}

/// The stage of a landing command.
#[derive(Debug, Clone, Copy, PartialEq, Eq, Structural)]
pub enum AutoLandState {
    /// Flying to the landing location.
    FlyToLocation,
    /// Descending.
    Descending,
}

/// What verifying a landing reads.
#[derive(Debug, Clone, Copy, PartialEq, Eq, Structural)]
pub struct AutoVerifyLandView {
    /// The stage.
    pub state: AutoLandState,
    /// Whether the landing location is reached.
    pub reached_wp: bool,
    /// Whether the vehicle has landed.
    pub land_complete: bool,
    /// Whether the motors are at ground idle.
    pub ground_idle: bool,
    /// Whether the mission goes on after landing (a takeoff follows).
    pub continue_after_land: bool,
    /// Whether the motors are armed.
    pub armed: bool,
}

impl AutoVerifyLandView {
    /// Still flying to the landing location.
    pub fn flying_to() -> (r: AutoVerifyLandView)
        ensures
            r == (AutoVerifyLandView {
                state: AutoLandState::FlyToLocation,
                reached_wp: false,
                land_complete: false,
                ground_idle: false,
                continue_after_land: false,
                armed: true,
            }),
    {
        AutoVerifyLandView {
            state: AutoLandState::FlyToLocation,
            reached_wp: false,
            land_complete: false,
            ground_idle: false,
            continue_after_land: false,
            armed: true,
        }
    }

    /// Arrived over the landing location.
    pub fn arrived() -> (r: AutoVerifyLandView)
        ensures
            r == (AutoVerifyLandView {
                state: AutoLandState::FlyToLocation,
                reached_wp: true,
                land_complete: false,
                ground_idle: false,
                continue_after_land: false,
                armed: true,
            }),
    {
        let mut view = AutoVerifyLandView::flying_to();
        view.reached_wp = true;
        view
    }

    /// Down, with nothing after the landing.
    pub fn landed() -> (r: AutoVerifyLandView)
        ensures
            r == (AutoVerifyLandView {
                state: AutoLandState::Descending,
                reached_wp: true,
                land_complete: true,
                ground_idle: true,
                continue_after_land: false,
                armed: true,
            }),
    {
        AutoVerifyLandView {
            state: AutoLandState::Descending,
            reached_wp: true,
            land_complete: true,
            ground_idle: true,
            continue_after_land: false,
            armed: true,
        }
    }
}

/// What verifying a landing did.
#[derive(Debug, Clone, Copy, PartialEq, Eq, Structural)]
pub struct AutoVerifyLand {
    /// Whether the command is complete.
    pub complete: bool,
    /// Whether the descent was started.
    pub land_start: bool,
    /// The stage afterwards.
    pub state: AutoLandState,
    /// Whether the vehicle was disarmed.
    pub disarm: bool,
    /// Whether an internal error was reported.
    pub flow_of_control: bool,
}

/// Verifying a landing: on arrival the descent starts; descending, the
/// command is complete once landed at ground idle, unless the vehicle is
/// disarmed there (nothing follows the landing), in which case the mission
/// stays on the landing.
pub open spec fn verify_land_outcome(v: AutoVerifyLandView) -> AutoVerifyLand {
    match v.state {
        AutoLandState::FlyToLocation => AutoVerifyLand {
            complete: false,
            land_start: v.reached_wp,
            state: if v.reached_wp { AutoLandState::Descending } else { AutoLandState::FlyToLocation },
            disarm: false,
            flow_of_control: false,
        },
        AutoLandState::Descending => {
            let landed = v.land_complete && v.ground_idle;
            let disarm = landed && !v.continue_after_land && v.armed;
            AutoVerifyLand {
                complete: landed && !disarm,
                land_start: false,
                state: AutoLandState::Descending,
                disarm,
                flow_of_control: false,
            }
        },
    }
}

/// Verifying a landing.
pub fn auto_verify_land(view: &AutoVerifyLandView) -> (r: AutoVerifyLand)
    ensures
        r == verify_land_outcome(*view),
{
    match view.state {
        AutoLandState::FlyToLocation => AutoVerifyLand {
            complete: false,
            land_start: view.reached_wp,
            state: if view.reached_wp {
                AutoLandState::Descending
            } else {
                AutoLandState::FlyToLocation
            },
            disarm: false,
            flow_of_control: false,
        },
        AutoLandState::Descending => {
            let landed = view.land_complete && view.ground_idle;
            let disarm = landed && !view.continue_after_land && view.armed;
            AutoVerifyLand {
                complete: landed && !disarm,
                land_start: false,
                state: AutoLandState::Descending,
                disarm,
                flow_of_control: false,
            }
        },
    }
}

/// A landing that disarms is never reported complete, and a complete landing
/// is on the ground at idle.
pub proof fn lemma_disarming_landing_not_complete(v: AutoVerifyLandView)
    ensures
        verify_land_outcome(v).disarm ==> !verify_land_outcome(v).complete,
        verify_land_outcome(v).complete ==> v.land_complete && v.ground_idle,
{
}

/// What the waypoint and loiter-time checks read.
#[derive(Debug, Clone, Copy, PartialEq, Eq, Structural)]
pub struct AutoVerifyWpTimerView {
    /// Whether the destination is reached.
    pub reached_wp: bool,
    /// Whether the loiter timer is not yet started.
    pub timer_unset: bool,
    /// Whole seconds since the timer started.
    pub elapsed_s: u32,
    /// The loiter delay, in seconds.
    pub loiter_time_max: u16,
}

impl AutoVerifyWpTimerView {
    /// Not there yet.
    pub fn en_route() -> (r: AutoVerifyWpTimerView)
        ensures
            r == (AutoVerifyWpTimerView {
                reached_wp: false,
                timer_unset: true,
                elapsed_s: 0,
                loiter_time_max: 0,
            }),
    {
        AutoVerifyWpTimerView { reached_wp: false, timer_unset: true, elapsed_s: 0, loiter_time_max: 0 }
    }

    /// Just arrived, no delay.
    pub fn arrived_no_delay() -> (r: AutoVerifyWpTimerView)
        ensures
            r == (AutoVerifyWpTimerView {
                reached_wp: true,
                timer_unset: true,
                elapsed_s: 0,
                loiter_time_max: 0,
            }),
    {
        AutoVerifyWpTimerView { reached_wp: true, timer_unset: true, elapsed_s: 0, loiter_time_max: 0 }
    }

    /// Arrived, and the delay has passed.
    pub fn delay_done(max_s: u16) -> (r: AutoVerifyWpTimerView)
        ensures
            r == (AutoVerifyWpTimerView {
                reached_wp: true,
                timer_unset: false,
                elapsed_s: max_s as u32,
                loiter_time_max: max_s,
            }),
    {
        AutoVerifyWpTimerView {
            reached_wp: true,
            timer_unset: false,
            elapsed_s: max_s as u32,
            loiter_time_max: max_s,
        }
    }
}

/// What the waypoint and loiter-time checks found.
#[derive(Debug, Clone, Copy, PartialEq, Eq, Structural)]
pub struct AutoVerifyWpTimer {
    /// Whether the command is complete.
    pub complete: bool,
    /// Whether the timer was started.
    pub timer_started: bool,
    /// Whether the waypoint-complete notification fires.
    pub waypoint_complete_notify: bool,
    /// Whether "reached command" is sent.
    pub reached_text: bool,
}

/// The shared check: nothing until the destination is reached; then the
/// timer starts (if not yet) and the command completes once the delay has
/// passed. A waypoint also notifies when its delay starts, or when it
/// completes without one.
pub open spec fn wp_timer_outcome(v: AutoVerifyWpTimerView, notify: bool) -> AutoVerifyWpTimer {
    if !v.reached_wp {
        AutoVerifyWpTimer {
            complete: false,
            timer_started: false,
            waypoint_complete_notify: false,
            reached_text: false,
        }
    } else {
        let complete = v.elapsed_s >= v.loiter_time_max;
        AutoVerifyWpTimer {
            complete,
            timer_started: v.timer_unset,
            waypoint_complete_notify: notify && ((v.timer_unset && v.loiter_time_max > 0) || (
            complete && v.loiter_time_max == 0)),
            reached_text: complete,
        }
    }
}

fn verify_wp_timer(view: &AutoVerifyWpTimerView, notify: bool) -> (r: AutoVerifyWpTimer)
    ensures
        r == wp_timer_outcome(*view, notify),
        !view.reached_wp ==> !r.complete && !r.timer_started && !r.waypoint_complete_notify
            && !r.reached_text,
        view.reached_wp ==> (r.complete <==> view.elapsed_s >= view.loiter_time_max),
        view.reached_wp ==> r.timer_started == view.timer_unset,
        r.reached_text == r.complete,
{
    if !view.reached_wp {
        return AutoVerifyWpTimer {
            complete: false,
            timer_started: false,
            waypoint_complete_notify: false,
            reached_text: false,
        };
    }
    let timer_started = view.timer_unset;
    let complete = view.elapsed_s >= view.loiter_time_max as u32;
    let notify_start = timer_started && notify && view.loiter_time_max > 0;
    let notify_done = complete && notify && view.loiter_time_max == 0;
    AutoVerifyWpTimer {
        complete,
        timer_started,
        waypoint_complete_notify: notify_start || notify_done,
        reached_text: complete,
    }
}

/// The waypoint delay is waited out: on arrival the command completes exactly
/// when the whole seconds since the timer started reach the delay, so a
/// vehicle that has just arrived at a waypoint with a delay does not complete,
/// and one that completes keeps completing as the seconds grow. Before
/// arrival nothing happens.
pub proof fn lemma_wp_delay_is_waited_out(v: AutoVerifyWpTimerView, notify: bool, later_s: u32)
    ensures
        v.reached_wp ==> (wp_timer_outcome(v, notify).complete <==> v.elapsed_s
            >= v.loiter_time_max),
        v.reached_wp && v.elapsed_s < v.loiter_time_max ==> !wp_timer_outcome(v, notify).complete
            && !wp_timer_outcome(v, notify).reached_text,
        !v.reached_wp ==> !wp_timer_outcome(v, notify).complete && !wp_timer_outcome(
            v,
            notify,
        ).timer_started,
        wp_timer_outcome(v, notify).complete && later_s >= v.elapsed_s ==> wp_timer_outcome(
            AutoVerifyWpTimerView { elapsed_s: later_s, ..v },
            notify,
        ).complete,
        notify && v.reached_wp && v.timer_unset && v.loiter_time_max > 0 ==> wp_timer_outcome(
            v,
            notify,
        ).waypoint_complete_notify,
{
}

/// Verifying a timed loiter.
pub fn auto_verify_loiter_time(view: &AutoVerifyWpTimerView) -> (r: AutoVerifyWpTimer)
    ensures
        r == wp_timer_outcome(*view, false),
        !view.reached_wp ==> !r.complete && !r.timer_started && !r.waypoint_complete_notify
            && !r.reached_text,
        view.reached_wp ==> (r.complete <==> view.elapsed_s >= view.loiter_time_max),
        view.reached_wp ==> r.timer_started == view.timer_unset,
        r.reached_text == r.complete,
{
    verify_wp_timer(view, false)
}

/// Verifying a waypoint.
pub fn auto_verify_nav_wp(view: &AutoVerifyWpTimerView) -> (r: AutoVerifyWpTimer)
    ensures
        r == wp_timer_outcome(*view, true),
        !view.reached_wp ==> !r.complete && !r.timer_started && !r.waypoint_complete_notify
            && !r.reached_text,
        view.reached_wp ==> (r.complete <==> view.elapsed_s >= view.loiter_time_max),
        view.reached_wp ==> r.timer_started == view.timer_unset,
        r.reached_text == r.complete,
{
    verify_wp_timer(view, true)
}

/// Verifying a spline waypoint.
pub fn auto_verify_spline_wp(view: &AutoVerifyWpTimerView) -> (r: AutoVerifyWpTimer)
    ensures
        r == wp_timer_outcome(*view, false),
        !view.reached_wp ==> !r.complete && !r.timer_started && !r.waypoint_complete_notify
            && !r.reached_text,
        view.reached_wp ==> (r.complete <==> view.elapsed_s >= view.loiter_time_max),
        view.reached_wp ==> r.timer_started == view.timer_unset,
        r.reached_text == r.complete,
{
    verify_wp_timer(view, false)
}

/// An unlimited loiter never completes.
pub fn auto_verify_loiter_unlimited() -> (r: bool)
    ensures
        !r,
{
    false
}

/// A loiter to an altitude completes once both targets are reached.
pub fn auto_verify_loiter_to_alt(reached_xy: bool, reached_alt: bool) -> (r: bool)
    ensures
        r == (reached_xy && reached_alt),
{
    reached_xy && reached_alt
}

/// A takeoff completes when the takeoff says so.
pub fn auto_verify_takeoff(complete: bool) -> (r: bool)
    ensures
        r == complete,
{
    complete
}

/// The stages of a return to launch.
#[derive(Debug, Clone, Copy, PartialEq, Eq, Structural)]
pub enum RtlSubMode {
    /// Starting.
    Starting,
    /// Climbing to the return altitude.
    InitialClimb,
    /// Flying home.
    ReturnHome,
    /// Loitering over home.
    LoiterAtHome,
    /// The final descent.
    FinalDescent,
    /// Landing.
    Land,
}

/// What verifying a return to launch reads.
#[derive(Debug, Clone, Copy, PartialEq, Eq, Structural)]
pub struct AutoVerifyRtlView {
    /// Whether the current stage is complete.
    pub state_complete: bool,
    /// The stage.
    pub state: RtlSubMode,
    /// Whether the motors are at ground idle.
    pub ground_idle: bool,
}

impl AutoVerifyRtlView {
    /// Down after the final descent, at ground idle.
    pub fn landed() -> (r: AutoVerifyRtlView)
        ensures
            r == (AutoVerifyRtlView {
                state_complete: true,
                state: RtlSubMode::FinalDescent,
                ground_idle: true,
            }),
    {
        AutoVerifyRtlView { state_complete: true, state: RtlSubMode::FinalDescent, ground_idle: true }
    }
}

/// A return to launch completes when its final descent or landing is done
/// and the motors are at ground idle.
pub fn auto_verify_rtl(view: &AutoVerifyRtlView) -> (r: bool)
    ensures
        r == (view.state_complete && (view.state == RtlSubMode::FinalDescent || view.state
            == RtlSubMode::Land) && view.ground_idle),
{
    let final_stage = match view.state {
        RtlSubMode::FinalDescent | RtlSubMode::Land => true,
        _ => false,
    };
    view.state_complete && final_stage && view.ground_idle
}

/// What verifying a wait reads.
#[derive(Debug, Clone, Copy, PartialEq, Eq, Structural)]
pub struct AutoVerifyWaitDelayView {
    /// Milliseconds since the wait started.
    pub elapsed_ms: u32,
    /// The wait, in milliseconds (may be negative).
    pub condition_value: i32,
}

impl AutoVerifyWaitDelayView {
    /// Still waiting.
    pub fn waiting() -> (r: AutoVerifyWaitDelayView)
        ensures
            r == (AutoVerifyWaitDelayView { elapsed_ms: 500, condition_value: 3000 }),
    {
        AutoVerifyWaitDelayView { elapsed_ms: 500, condition_value: 3000 }
    }

    /// The wait is over.
    pub fn done() -> (r: AutoVerifyWaitDelayView)
        ensures
            r == (AutoVerifyWaitDelayView { elapsed_ms: 3001, condition_value: 3000 }),
    {
        AutoVerifyWaitDelayView { elapsed_ms: 3001, condition_value: 3000 }
    }
}

/// What verifying a wait found.
#[derive(Debug, Clone, Copy, PartialEq, Eq, Structural)]
pub struct AutoVerifyWaitDelay {
    /// Whether the wait is over.
    pub complete: bool,
    /// Whether the wait was cleared.
    pub cleared: bool,
}

/// A wait is over once the elapsed time is more than the wait (a negative
/// wait counting as zero); it is then cleared.
pub fn auto_verify_wait_delay(view: &AutoVerifyWaitDelayView) -> (r: AutoVerifyWaitDelay)
    ensures
        r.complete == (view.elapsed_ms > (if view.condition_value > 0 { view.condition_value as int } else { 0 })),
        r.cleared == r.complete,
{
    let gate: u32 = if view.condition_value > 0 { view.condition_value as u32 } else { 0 };
    let complete = view.elapsed_ms > gate;
    AutoVerifyWaitDelay { complete, cleared: complete }
}

/// What verifying a distance wait found.
#[derive(Debug, Clone, Copy, PartialEq, Eq, Structural)]
pub struct AutoVerifyWithinDistance {
    /// Whether the vehicle is within the distance.
    pub complete: bool,
    /// Whether the distance was cleared.
    pub cleared: bool,
}

/// A distance wait is over once the distance to the waypoint is under the
/// wait's distance (a negative one counting as zero, so never); that
/// comparison is the caller's. The wait is then cleared.
pub fn auto_verify_within_distance(within: bool) -> (r: AutoVerifyWithinDistance)
    ensures
        r == (AutoVerifyWithinDistance { complete: within, cleared: within }),
{
    AutoVerifyWithinDistance { complete: within, cleared: within }
}

/// What verifying a yaw found.
#[derive(Debug, Clone, Copy, PartialEq, Eq, Structural)]
pub struct AutoVerifyYaw {
    /// The yaw was forced back to a fixed heading (the waypoint controller
    /// often takes it).
    pub set_fixed: bool,
    /// Whether the turn has arrived.
    pub complete: bool,
}

/// Verifying a yaw: force the fixed heading, then ask whether the turn has
/// arrived (the caller's comparison).
pub fn auto_verify_yaw(reached_fixed_yaw_target: bool) -> (r: AutoVerifyYaw)
    ensures
        r == (AutoVerifyYaw { set_fixed: true, complete: reached_fixed_yaw_target }),
{
    AutoVerifyYaw { set_fixed: true, complete: reached_fixed_yaw_target }
}

/// What verifying a delay reads.
#[derive(Debug, Clone, Copy, PartialEq, Eq, Structural)]
pub struct AutoVerifyNavDelayView {
    /// Milliseconds since the delay started.
    pub elapsed_ms: u32,
    /// The delay, in milliseconds.
    pub max_ms: u32,
}

impl AutoVerifyNavDelayView {
    /// Still delaying.
    pub fn waiting() -> (r: AutoVerifyNavDelayView)
        ensures
            r == (AutoVerifyNavDelayView { elapsed_ms: 1000, max_ms: 5000 }),
    {
        AutoVerifyNavDelayView { elapsed_ms: 1000, max_ms: 5000 }
    }

    /// The delay is over.
    pub fn done() -> (r: AutoVerifyNavDelayView)
        ensures
            r == (AutoVerifyNavDelayView { elapsed_ms: 5001, max_ms: 5000 }),
    {
        AutoVerifyNavDelayView { elapsed_ms: 5001, max_ms: 5000 }
    }
}

/// What verifying a delay found.
#[derive(Debug, Clone, Copy, PartialEq, Eq, Structural)]
pub struct AutoVerifyNavDelay {
    /// Whether the delay is over.
    pub complete: bool,
    /// Whether the delay was cleared.
    pub cleared: bool,
}

/// A delay is over once the elapsed time is more than it; it is then cleared.
pub fn auto_verify_nav_delay(view: &AutoVerifyNavDelayView) -> (r: AutoVerifyNavDelay)
    ensures
        r.complete == (view.elapsed_ms > view.max_ms),
        r.cleared == r.complete,
{
    let complete = view.elapsed_ms > view.max_ms;
    AutoVerifyNavDelay { complete, cleared: complete }
}

/// What verifying guided-from-companion reads.
#[derive(Debug, Clone, Copy, PartialEq, Eq, Structural)]
pub struct AutoVerifyNavGuidedView {
    /// The command's first parameter.
    pub p1: u16,
    /// Whether Guided's limits have been hit.
    pub limit_check: bool,
}

/// Guided-from-companion completes at once when it disables (a zero
/// parameter), else when Guided's limits are hit.
pub fn auto_verify_nav_guided_enable(view: &AutoVerifyNavGuidedView) -> (r: bool)
    ensures
        r == (view.p1 == 0 || view.limit_check),
{
    view.p1 == 0 || view.limit_check
}

/// What verifying a scripted manoeuvre reads.
#[derive(Debug, Clone, Copy, PartialEq, Eq, Structural)]
pub struct AutoVerifyNavScriptTimeView {
    /// Whether the script said it is done.
    pub done: bool,
    /// The timeout, in seconds (zero for none).
    pub timeout_s: u16,
    /// Milliseconds since it started.
    pub elapsed_ms: u32,
}

/// A scripted manoeuvre completes when the script is done, or when a set
/// timeout has passed.
pub fn auto_verify_nav_script_time(view: &AutoVerifyNavScriptTimeView) -> (r: bool)
    ensures
        r == (view.done || (view.timeout_s > 0 && view.elapsed_ms > view.timeout_s * 1000)),
{
    if view.done {
        return true;
    }
    view.timeout_s > 0 && view.elapsed_ms > view.timeout_s as u32 * 1000
}

/// An attitude hold completes once its time has passed.
pub fn auto_verify_nav_attitude_time(elapsed_ms: u32, time_sec: u16) -> (r: bool)
    ensures
        r == (elapsed_ms > time_sec * 1000),
{
    elapsed_ms > time_sec as u32 * 1000
}

/// Placing a payload completes when its last stage is done.
pub fn auto_verify_payload_place(state: PayloadPlaceState) -> (r: bool)
    ensures
        r == (state == PayloadPlaceState::Done),
{
    match state {
        PayloadPlaceState::Done => true,
        _ => false,
    }
}

/// What the circle check reads.
#[derive(Debug, Clone, Copy, PartialEq, Eq, Structural)]
pub struct AutoVerifyCircleView {
    /// The submode at the top of the call.
    pub submode: AutoSubMode,
    /// The waypoint controller reached the circle's edge.
    pub reached_wp: bool,
    /// A region of interest holds the yaw.
    pub auto_yaw_is_roi: bool,
    /// The circles flown reach the commanded turns.
    pub turns_done: bool,
    /// The whole number of circles flown differs from the last one announced.
    pub new_circle: bool,
}

/// What the circle check decided.
#[derive(Debug, Clone, Copy, PartialEq, Eq, Structural)]
pub struct AutoVerifyCircle {
    /// The command is complete.
    pub complete: bool,
    /// The circle was started at the edge.
    pub circle_start: bool,
    /// The yaw the start set.
    pub yaw: AutoCircleYaw,
    /// The submode afterwards.
    pub submode: AutoSubMode,
    /// "Mission: starting circle" was announced.
    pub starting_circle_text: bool,
    /// The announced circle count moves to the circles flown.
    pub last_num_complete_updated: bool,
}

/// The circle check as a function of what it reads.
pub open spec fn auto_verify_circle_spec(v: AutoVerifyCircleView) -> AutoVerifyCircle {
    if v.submode == AutoSubMode::CircleMoveToEdge {
        AutoVerifyCircle {
            complete: false,
            circle_start: v.reached_wp,
            yaw: if v.reached_wp && !v.auto_yaw_is_roi {
                AutoCircleYaw::Circle
            } else {
                AutoCircleYaw::Unchanged
            },
            submode: if v.reached_wp {
                AutoSubMode::Circle
            } else {
                AutoSubMode::CircleMoveToEdge
            },
            starting_circle_text: false,
            last_num_complete_updated: false,
        }
    } else {
        AutoVerifyCircle {
            complete: v.turns_done,
            circle_start: false,
            yaw: AutoCircleYaw::Unchanged,
            submode: v.submode,
            starting_circle_text: v.new_circle,
            last_num_complete_updated: v.new_circle,
        }
    }
}

/// The circle command's check. While flying to the edge it waits for the
/// edge, then starts the circle, and never completes on that tick; once
/// circling it completes when the commanded turns are flown, announcing each
/// new whole circle.
pub fn auto_verify_circle(view: &AutoVerifyCircleView) -> (r: AutoVerifyCircle)
    ensures
        r == auto_verify_circle_spec(*view),
        r.circle_start ==> !r.complete,
{
    if matches!(view.submode, AutoSubMode::CircleMoveToEdge) {
        let start = view.reached_wp;
        return AutoVerifyCircle {
            complete: false,
            circle_start: start,
            yaw: if start {
                circle_start_yaw(view.auto_yaw_is_roi)
            } else {
                AutoCircleYaw::Unchanged
            },
            submode: if start {
                AutoSubMode::Circle
            } else {
                AutoSubMode::CircleMoveToEdge
            },
            starting_circle_text: false,
            last_num_complete_updated: false,
        };
    }
    AutoVerifyCircle {
        complete: view.turns_done,
        circle_start: false,
        yaw: AutoCircleYaw::Unchanged,
        submode: view.submode,
        starting_circle_text: view.new_circle,
        last_num_complete_updated: view.new_circle,
    }
}

} // verus!
