//! The bodies that start Auto's mission commands: what each one sets up, and
//! which submode it parks in. A refusal for want of terrain data runs the
//! terrain failsafe and leaves the yaw and the submode alone.

use vstd::prelude::*;
use super::AutoSubMode;
use crate::auto_yaw::{roi_action, roi_action_spec, FixedYawDirection, RoiAction};

verus! {

/// Where a takeoff's target altitude comes from.
#[derive(Debug, Clone, Copy, PartialEq, Eq, Structural)]
pub enum TakeoffAltSource {
    /// A terrain-relative destination with terrain data: the destination's
    /// height above terrain, the vehicle measured above terrain too.
    Terrain,
    /// The destination converted to a height above the origin.
    Origin,
    /// The conversion failed: the current height plus the destination's
    /// height (and missing terrain data is logged).
    CurrentPlusDest,
}

/// What starting a takeoff reads.
#[derive(Debug, Clone, Copy, PartialEq, Eq, Structural)]
pub struct AutoTakeoffStartView {
    /// Whether the current location is known.
    pub current_loc_initialised: bool,
    /// Whether the destination's altitude is terrain-relative.
    pub dest_alt_frame_terrain: bool,
    /// Whether the terrain height under the vehicle is known.
    pub terrain_available: bool,
    /// Whether the destination converts to a height above the origin.
    pub origin_alt_available: bool,
    /// Whether the vehicle has landed.
    pub land_complete: bool,
}

impl AutoTakeoffStartView {
    /// In the air, a destination that converts to a height above the origin.
    pub fn origin_airborne() -> (r: AutoTakeoffStartView)
        ensures
            r == (AutoTakeoffStartView {
                current_loc_initialised: true,
                dest_alt_frame_terrain: false,
                terrain_available: false,
                origin_alt_available: true,
                land_complete: false,
            }),
    {
        AutoTakeoffStartView {
            current_loc_initialised: true,
            dest_alt_frame_terrain: false,
            terrain_available: false,
            origin_alt_available: true,
            land_complete: false,
        }
    }

    /// No current location yet.
    pub fn uninitialised() -> (r: AutoTakeoffStartView)
        ensures
            r == (AutoTakeoffStartView {
                current_loc_initialised: false,
                dest_alt_frame_terrain: false,
                terrain_available: false,
                origin_alt_available: true,
                land_complete: false,
            }),
    {
        let mut view = AutoTakeoffStartView::origin_airborne();
        view.current_loc_initialised = false;
        view
    }

    /// On the ground.
    pub fn landed() -> (r: AutoTakeoffStartView)
        ensures
            r == (AutoTakeoffStartView {
                current_loc_initialised: true,
                dest_alt_frame_terrain: false,
                terrain_available: false,
                origin_alt_available: true,
                land_complete: true,
            }),
    {
        let mut view = AutoTakeoffStartView::origin_airborne();
        view.land_complete = true;
        view
    }
}

/// What starting a takeoff did. The target is then raised to at least the
/// current height plus `min_climb_m`.
#[derive(Debug, Clone, Copy, PartialEq, Eq, Structural)]
pub struct AutoTakeoffStart {
    /// Whether the start went ahead.
    pub ok: bool,
    /// Whether an internal error was reported (no current location).
    pub flow_of_control_error: bool,
    /// Whether missing terrain data was logged.
    pub missing_terrain_data: bool,
    /// Where the target altitude comes from.
    pub alt_source: Option<TakeoffAltSource>,
    /// Whether the target is terrain-relative.
    pub alt_target_terrain: bool,
    /// Metres above the current height the target is at least: one on the
    /// ground, so a grounded copter always climbs.
    pub min_climb_m: u8,
    /// Whether the yaw holds.
    pub yaw_hold: bool,
    /// Whether the vertical controller was reset.
    pub d_init_controller: bool,
    /// Whether the takeoff was started.
    pub auto_takeoff_start: bool,
    /// The submode afterwards.
    pub submode: Option<AutoSubMode>,
}

/// Starting a takeoff.
pub open spec fn takeoff_start_outcome(v: AutoTakeoffStartView) -> AutoTakeoffStart {
    if !v.current_loc_initialised {
        AutoTakeoffStart {
            ok: false,
            flow_of_control_error: true,
            missing_terrain_data: false,
            alt_source: None,
            alt_target_terrain: false,
            min_climb_m: 0,
            yaw_hold: false,
            d_init_controller: false,
            auto_takeoff_start: false,
            submode: None,
        }
    } else {
        let terrain = v.dest_alt_frame_terrain && v.terrain_available;
        AutoTakeoffStart {
            ok: true,
            flow_of_control_error: false,
            missing_terrain_data: !terrain && !v.origin_alt_available,
            alt_source: Some(
                if terrain {
                    TakeoffAltSource::Terrain
                } else if v.origin_alt_available {
                    TakeoffAltSource::Origin
                } else {
                    TakeoffAltSource::CurrentPlusDest
                },
            ),
            alt_target_terrain: terrain,
            min_climb_m: if v.land_complete { 1 } else { 0 },
            yaw_hold: true,
            d_init_controller: true,
            auto_takeoff_start: true,
            submode: Some(AutoSubMode::Takeoff),
        }
    }
}

/// Starting a takeoff: nothing without a current location (an internal
/// error); otherwise pick the altitude source, hold the yaw, reset the
/// vertical controller and park in Takeoff.
pub fn auto_takeoff_start(view: &AutoTakeoffStartView) -> (r: AutoTakeoffStart)
    ensures
        r == takeoff_start_outcome(*view),
{
    if !view.current_loc_initialised {
        return AutoTakeoffStart {
            ok: false,
            flow_of_control_error: true,
            missing_terrain_data: false,
            alt_source: None,
            alt_target_terrain: false,
            min_climb_m: 0,
            yaw_hold: false,
            d_init_controller: false,
            auto_takeoff_start: false,
            submode: None,
        };
    }
    let terrain = view.dest_alt_frame_terrain && view.terrain_available;
    let mut missing_terrain_data = false;
    let alt_source = if terrain {
        TakeoffAltSource::Terrain
    } else if view.origin_alt_available {
        TakeoffAltSource::Origin
    } else {
        missing_terrain_data = true;
        TakeoffAltSource::CurrentPlusDest
    };
    AutoTakeoffStart {
        ok: true,
        flow_of_control_error: false,
        missing_terrain_data,
        alt_source: Some(alt_source),
        alt_target_terrain: terrain,
        min_climb_m: if view.land_complete { 1 } else { 0 },
        yaw_hold: true,
        d_init_controller: true,
        auto_takeoff_start: true,
        submode: Some(AutoSubMode::Takeoff),
    }
}

/// What starting a waypoint reads.
#[derive(Debug, Clone, Copy, PartialEq, Eq, Structural)]
pub struct AutoWpStartView {
    /// Whether the waypoint controller is active.
    pub wp_nav_active: bool,
    /// The submode before the call.
    pub submode: AutoSubMode,
    /// Whether the takeoff has a completion point.
    pub takeoff_completion_pos: bool,
    /// Whether a horizontal speed override is set (positive).
    pub xy_override_set: bool,
    /// Whether a climb speed override is set (positive).
    pub up_override_set: bool,
    /// Whether a descent speed override is set (positive).
    pub down_override_set: bool,
    /// Whether the controller accepted the destination.
    pub dest_accepted: bool,
    /// Whether the yaw mode is a region of interest.
    pub auto_yaw_is_roi: bool,
    /// Whether the yaw mode is a fixed heading.
    pub auto_yaw_is_fixed: bool,
    /// Whether the waypoint yaw behaviour is "none".
    pub wp_yaw_behavior_none: bool,
}

impl AutoWpStartView {
    /// An idle controller after the Loiter park, destination accepted, yaw
    /// holding.
    pub fn idle_loiter() -> (r: AutoWpStartView)
        ensures
            r == AutoWpStartView::idle_loiter_spec(),
    {
        AutoWpStartView {
            wp_nav_active: false,
            submode: AutoSubMode::Loiter,
            takeoff_completion_pos: false,
            xy_override_set: false,
            up_override_set: false,
            down_override_set: false,
            dest_accepted: true,
            auto_yaw_is_roi: false,
            auto_yaw_is_fixed: false,
            wp_yaw_behavior_none: false,
        }
    }

    /// The idle-controller view.
    pub open spec fn idle_loiter_spec() -> AutoWpStartView {
        AutoWpStartView {
            wp_nav_active: false,
            submode: AutoSubMode::Loiter,
            takeoff_completion_pos: false,
            xy_override_set: false,
            up_override_set: false,
            down_override_set: false,
            dest_accepted: true,
            auto_yaw_is_roi: false,
            auto_yaw_is_fixed: false,
            wp_yaw_behavior_none: false,
        }
    }

    /// Leaving a takeoff that has a completion point.
    pub fn from_takeoff() -> (r: AutoWpStartView)
        ensures
            r == (AutoWpStartView {
                submode: AutoSubMode::Takeoff,
                takeoff_completion_pos: true,
                ..AutoWpStartView::idle_loiter_spec()
            }),
    {
        let mut view = AutoWpStartView::idle_loiter();
        view.submode = AutoSubMode::Takeoff;
        view.takeoff_completion_pos = true;
        view
    }

    /// The destination refused (terrain or rangefinder).
    pub fn dest_refused() -> (r: AutoWpStartView)
        ensures
            r == (AutoWpStartView { dest_accepted: false, ..AutoWpStartView::idle_loiter_spec() }),
    {
        let mut view = AutoWpStartView::idle_loiter();
        view.dest_accepted = false;
        view
    }
}

/// What starting a waypoint did.
#[derive(Debug, Clone, Copy, PartialEq, Eq, Structural)]
pub struct AutoWpStart {
    /// Whether it succeeded.
    pub ok: bool,
    /// Whether the waypoint controller was set up.
    pub wp_and_spline_init: bool,
    /// Whether that setup used the horizontal speed override.
    pub init_with_xy_override: bool,
    /// Whether the takeoff's completion point was the stopping point.
    pub stopping_point_from_takeoff: bool,
    /// Whether the climb speed was set.
    pub set_speed_up: bool,
    /// Whether the descent speed was set.
    pub set_speed_down: bool,
    /// Whether the destination was set.
    pub set_wp_destination: bool,
    /// Whether the yaw went back to its default mode.
    pub yaw_set_default: bool,
    /// The submode afterwards.
    pub submode: Option<AutoSubMode>,
}

/// Starting a waypoint. An idle controller is set up first (from the
/// takeoff's completion point when leaving a takeoff, with the overrides that
/// are set); an active one is left alone. A refused destination fails without
/// touching the yaw or the submode. Otherwise the yaw returns to its default
/// unless it is on a region of interest, or fixed with waypoint yaw "none",
/// and the submode is Wp.
pub open spec fn wp_start_outcome(v: AutoWpStartView) -> AutoWpStart {
    let init = !v.wp_nav_active;
    let skip_yaw = v.auto_yaw_is_roi || (v.auto_yaw_is_fixed && v.wp_yaw_behavior_none);
    AutoWpStart {
        ok: v.dest_accepted,
        wp_and_spline_init: init,
        init_with_xy_override: init && v.xy_override_set,
        stopping_point_from_takeoff: init && v.submode == AutoSubMode::Takeoff
            && v.takeoff_completion_pos,
        set_speed_up: init && v.up_override_set,
        set_speed_down: init && v.down_override_set,
        set_wp_destination: v.dest_accepted,
        yaw_set_default: v.dest_accepted && !skip_yaw,
        submode: if v.dest_accepted { Some(AutoSubMode::Wp) } else { None },
    }
}

/// Starting a waypoint.
pub fn auto_wp_start(view: &AutoWpStartView) -> (r: AutoWpStart)
    ensures
        r == wp_start_outcome(*view),
{
    let mut wp_and_spline_init = false;
    let mut init_with_xy_override = false;
    let mut stopping_point_from_takeoff = false;
    let mut set_speed_up = false;
    let mut set_speed_down = false;
    if !view.wp_nav_active {
        let from_takeoff = match view.submode {
            AutoSubMode::Takeoff => true,
            _ => false,
        };
        stopping_point_from_takeoff = from_takeoff && view.takeoff_completion_pos;
        init_with_xy_override = view.xy_override_set;
        wp_and_spline_init = true;
        set_speed_up = view.up_override_set;
        set_speed_down = view.down_override_set;
    }
    if !view.dest_accepted {
        return AutoWpStart {
            ok: false,
            wp_and_spline_init,
            init_with_xy_override,
            stopping_point_from_takeoff,
            set_speed_up,
            set_speed_down,
            set_wp_destination: false,
            yaw_set_default: false,
            submode: None,
        };
    }
    let skip_yaw = view.auto_yaw_is_roi || (view.auto_yaw_is_fixed && view.wp_yaw_behavior_none);
    AutoWpStart {
        ok: true,
        wp_and_spline_init,
        init_with_xy_override,
        stopping_point_from_takeoff,
        set_speed_up,
        set_speed_down,
        set_wp_destination: true,
        yaw_set_default: !skip_yaw,
        submode: Some(AutoSubMode::Wp),
    }
}

/// A waypoint start the destination refused touches neither the yaw nor the
/// submode.
pub proof fn lemma_refused_wp_start_keeps_yaw_and_submode(v: AutoWpStartView)
    requires
        !v.dest_accepted,
    ensures
        !wp_start_outcome(v).ok,
        !wp_start_outcome(v).yaw_set_default,
        wp_start_outcome(v).submode is None,
{
}

/// What starting a landing reads.
#[derive(Debug, Clone, Copy, PartialEq, Eq, Structural)]
pub struct AutoLandStartView {
    /// Whether the horizontal controller is active.
    pub ne_is_active: bool,
    /// Whether the vertical controller is active.
    pub d_is_active: bool,
    /// Whether landing gear is built in.
    pub landing_gear: bool,
}

impl AutoLandStartView {
    /// Both controllers running, landing gear built in.
    pub fn ready() -> (r: AutoLandStartView)
        ensures
            r == (AutoLandStartView { ne_is_active: true, d_is_active: true, landing_gear: true }),
    {
        AutoLandStartView { ne_is_active: true, d_is_active: true, landing_gear: true }
    }
}

/// What starting a landing did. The limits handed to the controllers are the
/// waypoint controller's defaults.
#[derive(Debug, Clone, Copy, PartialEq, Eq, Structural)]
pub struct AutoLandStart {
    /// The horizontal controller was set up (only when idle).
    pub init_ne: bool,
    /// The vertical controller was set up (only when idle).
    pub init_d: bool,
    /// The yaw holds.
    pub yaw_hold: bool,
    /// The landing gear is deployed (when built in).
    pub deploy_landing_gear: bool,
    /// The repositioning flag afterwards: false.
    pub land_repo_active: bool,
    /// The precision-landing flag afterwards: false.
    pub prec_land_active: bool,
    /// The submode afterwards: Land.
    pub submode: AutoSubMode,
}

/// Starting a landing: idle controllers are set up, the yaw holds, the flags
/// are cleared and the submode is Land.
pub fn auto_land_start(view: &AutoLandStartView) -> (r: AutoLandStart)
    ensures
        r == (AutoLandStart {
            init_ne: !view.ne_is_active,
            init_d: !view.d_is_active,
            yaw_hold: true,
            deploy_landing_gear: view.landing_gear,
            land_repo_active: false,
            prec_land_active: false,
            submode: AutoSubMode::Land,
        }),
{
    AutoLandStart {
        init_ne: !view.ne_is_active,
        init_d: !view.d_is_active,
        yaw_hold: true,
        deploy_landing_gear: view.landing_gear,
        land_repo_active: false,
        prec_land_active: false,
        submode: AutoSubMode::Land,
    }
}

/// What starting a return to launch did.
#[derive(Debug, Clone, Copy, PartialEq, Eq, Structural)]
pub struct AutoRtlStart {
    /// Whether RTL's setup (with checks ignored) succeeded.
    pub ok: bool,
    /// Whether an internal error was reported (it never fails with checks
    /// ignored).
    pub flow_of_control_error: bool,
    /// The submode afterwards.
    pub submode: Option<AutoSubMode>,
}

/// Parks in the Rtl submode after RTL's setup, or reports the internal error.
pub fn auto_rtl_from_init(rtl_ok: bool) -> (r: AutoRtlStart)
    ensures
        rtl_ok ==> r == (AutoRtlStart {
            ok: true,
            flow_of_control_error: false,
            submode: Some(AutoSubMode::Rtl),
        }),
        !rtl_ok ==> r == (AutoRtlStart { ok: false, flow_of_control_error: true, submode: None }),
{
    if rtl_ok {
        AutoRtlStart { ok: true, flow_of_control_error: false, submode: Some(AutoSubMode::Rtl) }
    } else {
        AutoRtlStart { ok: false, flow_of_control_error: true, submode: None }
    }
}

/// What reading a spline segment from a command reads.
#[derive(Debug, Clone, Copy, PartialEq, Eq, Structural)]
pub struct AutoSplineFromCmdView {
    /// Whether the command's destination could be read.
    pub dest_loc_ok: bool,
    /// The delay at the end of this segment, in seconds.
    pub delay_s: u16,
    /// Whether there is a next navigation command.
    pub next_nav_cmd: bool,
    /// Whether its location could be read.
    pub next_loc_ok: bool,
    /// Whether it is a spline waypoint.
    pub next_is_spline_waypoint: bool,
}

impl AutoSplineFromCmdView {
    /// No delay, the next command a spline waypoint.
    pub fn through_to_spline() -> (r: AutoSplineFromCmdView)
        ensures
            r == AutoSplineFromCmdView::through_to_spline_spec(),
    {
        AutoSplineFromCmdView {
            dest_loc_ok: true,
            delay_s: 0,
            next_nav_cmd: true,
            next_loc_ok: true,
            next_is_spline_waypoint: true,
        }
    }

    /// The segment leading into another spline.
    pub open spec fn through_to_spline_spec() -> AutoSplineFromCmdView {
        AutoSplineFromCmdView {
            dest_loc_ok: true,
            delay_s: 0,
            next_nav_cmd: true,
            next_loc_ok: true,
            next_is_spline_waypoint: true,
        }
    }

    /// No delay, the next command a straight waypoint.
    pub fn through_to_wp() -> (r: AutoSplineFromCmdView)
        ensures
            r == (AutoSplineFromCmdView {
                next_is_spline_waypoint: false,
                ..AutoSplineFromCmdView::through_to_spline_spec()
            }),
    {
        let mut view = AutoSplineFromCmdView::through_to_spline();
        view.next_is_spline_waypoint = false;
        view
    }

    /// The last navigation command.
    pub fn last_segment() -> (r: AutoSplineFromCmdView)
        ensures
            r == (AutoSplineFromCmdView {
                dest_loc_ok: true,
                delay_s: 0,
                next_nav_cmd: false,
                next_loc_ok: false,
                next_is_spline_waypoint: false,
            }),
    {
        AutoSplineFromCmdView {
            dest_loc_ok: true,
            delay_s: 0,
            next_nav_cmd: false,
            next_loc_ok: false,
            next_is_spline_waypoint: false,
        }
    }

    /// A delay at the end of the segment.
    pub fn with_delay(delay_s: u16) -> (r: AutoSplineFromCmdView)
        ensures
            r == (AutoSplineFromCmdView { delay_s, ..AutoSplineFromCmdView::through_to_spline_spec() }),
    {
        AutoSplineFromCmdView {
            dest_loc_ok: true,
            delay_s,
            next_nav_cmd: true,
            next_loc_ok: true,
            next_is_spline_waypoint: true,
        }
    }

    /// The destination refused (terrain).
    pub fn dest_refused() -> (r: AutoSplineFromCmdView)
        ensures
            r == (AutoSplineFromCmdView {
                dest_loc_ok: false,
                ..AutoSplineFromCmdView::through_to_spline_spec()
            }),
    {
        AutoSplineFromCmdView {
            dest_loc_ok: false,
            delay_s: 0,
            next_nav_cmd: true,
            next_loc_ok: true,
            next_is_spline_waypoint: true,
        }
    }
}

/// A spline segment read from a command.
#[derive(Debug, Clone, Copy, PartialEq, Eq, Structural)]
pub struct AutoSplineFromCmd {
    /// Whether it could be read.
    pub ok: bool,
    /// Whether the outgoing control point is the destination itself.
    pub next_dest_is_dest: bool,
    /// Whether the next segment continues the spline.
    pub next_dest_is_spline: bool,
}

/// Reading a spline segment: with no delay and a next command, the outgoing
/// point is that command's location and the curve continues only into
/// another spline; a delay or the last command ends the curve at the
/// destination.
pub open spec fn spline_from_cmd(v: AutoSplineFromCmdView) -> AutoSplineFromCmd {
    if !v.dest_loc_ok {
        AutoSplineFromCmd { ok: false, next_dest_is_dest: false, next_dest_is_spline: false }
    } else if v.delay_s == 0 && v.next_nav_cmd {
        if !v.next_loc_ok {
            AutoSplineFromCmd { ok: false, next_dest_is_dest: false, next_dest_is_spline: false }
        } else {
            AutoSplineFromCmd {
                ok: true,
                next_dest_is_dest: false,
                next_dest_is_spline: v.next_is_spline_waypoint,
            }
        }
    } else {
        AutoSplineFromCmd { ok: true, next_dest_is_dest: true, next_dest_is_spline: false }
    }
}

/// Reads a spline segment from a command.
pub fn auto_spline_from_cmd(view: &AutoSplineFromCmdView) -> (r: AutoSplineFromCmd)
    ensures
        r == spline_from_cmd(*view),
{
    if !view.dest_loc_ok {
        return AutoSplineFromCmd { ok: false, next_dest_is_dest: false, next_dest_is_spline: false };
    }
    if view.delay_s == 0 && view.next_nav_cmd {
        if !view.next_loc_ok {
            return AutoSplineFromCmd {
                ok: false,
                next_dest_is_dest: false,
                next_dest_is_spline: false,
            };
        }
        return AutoSplineFromCmd {
            ok: true,
            next_dest_is_dest: false,
            next_dest_is_spline: view.next_is_spline_waypoint,
        };
    }
    AutoSplineFromCmd { ok: true, next_dest_is_dest: true, next_dest_is_spline: false }
}

/// What starting a spline waypoint reads.
#[derive(Debug, Clone, Copy, PartialEq, Eq, Structural)]
pub struct AutoSplineStartView {
    /// Whether the waypoint controller is active.
    pub wp_nav_active: bool,
    /// Whether it has reached its destination.
    pub reached_wp_destination: bool,
    /// Whether that destination can be read.
    pub wp_dest_loc_ok: bool,
    /// The segment.
    pub spline: AutoSplineFromCmdView,
    /// Whether the controller accepted the spline destination.
    pub spline_dest_accepted: bool,
    /// Whether the next waypoint could be set.
    pub next_wp_ok: bool,
    /// Whether the yaw mode is a region of interest.
    pub auto_yaw_is_roi: bool,
    /// Whether the yaw mode is a fixed heading.
    pub auto_yaw_is_fixed: bool,
    /// Whether the waypoint yaw behaviour is "none".
    pub wp_yaw_behavior_none: bool,
}

impl AutoSplineStartView {
    /// An idle controller, the destination accepted, the next a spline.
    pub fn ready() -> (r: AutoSplineStartView)
        ensures
            r == AutoSplineStartView::ready_spec(),
    {
        AutoSplineStartView {
            wp_nav_active: false,
            reached_wp_destination: false,
            wp_dest_loc_ok: false,
            spline: AutoSplineFromCmdView::through_to_spline(),
            spline_dest_accepted: true,
            next_wp_ok: true,
            auto_yaw_is_roi: false,
            auto_yaw_is_fixed: false,
            wp_yaw_behavior_none: false,
        }
    }

    /// The ready view.
    pub open spec fn ready_spec() -> AutoSplineStartView {
        AutoSplineStartView {
            wp_nav_active: false,
            reached_wp_destination: false,
            wp_dest_loc_ok: false,
            spline: AutoSplineFromCmdView::through_to_spline_spec(),
            spline_dest_accepted: true,
            next_wp_ok: true,
            auto_yaw_is_roi: false,
            auto_yaw_is_fixed: false,
            wp_yaw_behavior_none: false,
        }
    }

    /// Parked on the last waypoint: the default location is its destination.
    pub fn from_reached_wp() -> (r: AutoSplineStartView)
        ensures
            r == (AutoSplineStartView {
                wp_nav_active: true,
                reached_wp_destination: true,
                wp_dest_loc_ok: true,
                ..AutoSplineStartView::ready_spec()
            }),
    {
        let mut view = AutoSplineStartView::ready();
        view.wp_nav_active = true;
        view.reached_wp_destination = true;
        view.wp_dest_loc_ok = true;
        view
    }

    /// The command's destination refused.
    pub fn dest_refused() -> (r: AutoSplineStartView)
        ensures
            r.spline.dest_loc_ok == false,
            r == (AutoSplineStartView { spline: r.spline, ..AutoSplineStartView::ready_spec() }),
            r.spline == (AutoSplineFromCmdView {
                dest_loc_ok: false,
                ..AutoSplineFromCmdView::through_to_spline_spec()
            }),
    {
        let mut view = AutoSplineStartView::ready();
        view.spline = AutoSplineFromCmdView::dest_refused();
        view
    }

    /// The controller refused the spline destination.
    pub fn dest_set_refused() -> (r: AutoSplineStartView)
        ensures
            r == (AutoSplineStartView {
                spline_dest_accepted: false,
                ..AutoSplineStartView::ready_spec()
            }),
    {
        let mut view = AutoSplineStartView::ready();
        view.spline_dest_accepted = false;
        view
    }

    /// The next waypoint refused.
    pub fn next_wp_refused() -> (r: AutoSplineStartView)
        ensures
            r == (AutoSplineStartView { next_wp_ok: false, ..AutoSplineStartView::ready_spec() }),
    {
        let mut view = AutoSplineStartView::ready();
        view.next_wp_ok = false;
        view
    }
}

/// What starting a spline waypoint did.
#[derive(Debug, Clone, Copy, PartialEq, Eq, Structural)]
pub struct AutoSplineStart {
    /// Whether it reached the end (parked in Wp).
    pub ok: bool,
    /// Whether the default location came from the controller's destination.
    pub default_from_wp_dest: bool,
    /// Whether an internal error was reported (that destination unreadable
    /// while parked); the current location is used instead.
    pub dest_loc_flow_of_control: bool,
    /// Whether the terrain failsafe ran.
    pub terrain_failsafe: bool,
    /// The segment.
    pub spline: AutoSplineFromCmd,
    /// Whether the spline destination was set.
    pub set_spline_destination: bool,
    /// Whether the loiter timer was cleared.
    pub loiter_time_cleared: bool,
    /// The loiter delay latched, in seconds.
    pub loiter_time_max_s: u16,
    /// Whether the next waypoint was set.
    pub set_next_wp: bool,
    /// Whether the yaw went back to its default mode.
    pub yaw_set_default: bool,
    /// The submode afterwards.
    pub submode: Option<AutoSubMode>,
}

/// Starting a spline waypoint: the default location, the segment, the
/// destination, the loiter delay, the next waypoint, the yaw (as for a
/// waypoint) and the Wp submode. Any refusal runs the terrain failsafe and
/// stops before the yaw and the submode.
pub open spec fn spline_start_outcome(v: AutoSplineStartView) -> AutoSplineStart {
    let parked = v.wp_nav_active && v.reached_wp_destination;
    let from_dest = parked && v.wp_dest_loc_ok;
    let foc = parked && !v.wp_dest_loc_ok;
    let spline = spline_from_cmd(v.spline);
    let skip_yaw = v.auto_yaw_is_roi || (v.auto_yaw_is_fixed && v.wp_yaw_behavior_none);
    let accepted = spline.ok && v.spline_dest_accepted;
    let done = accepted && v.next_wp_ok;
    AutoSplineStart {
        ok: done,
        default_from_wp_dest: from_dest,
        dest_loc_flow_of_control: foc,
        terrain_failsafe: !done,
        spline,
        set_spline_destination: accepted,
        loiter_time_cleared: accepted,
        loiter_time_max_s: if accepted { v.spline.delay_s } else { 0 },
        set_next_wp: done,
        yaw_set_default: done && !skip_yaw,
        submode: if done { Some(AutoSubMode::Wp) } else { None },
    }
}

/// Starting a spline waypoint.
pub fn auto_spline_start(view: &AutoSplineStartView) -> (r: AutoSplineStart)
    ensures
        r == spline_start_outcome(*view),
{
    let mut default_from_wp_dest = false;
    let mut dest_loc_flow_of_control = false;
    if view.wp_nav_active && view.reached_wp_destination {
        if view.wp_dest_loc_ok {
            default_from_wp_dest = true;
        } else {
            dest_loc_flow_of_control = true;
        }
    }
    let spline = auto_spline_from_cmd(&view.spline);
    let refused = AutoSplineStart {
        ok: false,
        default_from_wp_dest,
        dest_loc_flow_of_control,
        terrain_failsafe: true,
        spline,
        set_spline_destination: false,
        loiter_time_cleared: false,
        loiter_time_max_s: 0,
        set_next_wp: false,
        yaw_set_default: false,
        submode: None,
    };
    if !spline.ok {
        return refused;
    }
    if !view.spline_dest_accepted {
        return refused;
    }
    if !view.next_wp_ok {
        return AutoSplineStart {
            set_spline_destination: true,
            loiter_time_cleared: true,
            loiter_time_max_s: view.spline.delay_s,
            ..refused
        };
    }
    let skip_yaw = view.auto_yaw_is_roi || (view.auto_yaw_is_fixed && view.wp_yaw_behavior_none);
    AutoSplineStart {
        ok: true,
        default_from_wp_dest,
        dest_loc_flow_of_control,
        terrain_failsafe: false,
        spline,
        set_spline_destination: true,
        loiter_time_cleared: true,
        loiter_time_max_s: view.spline.delay_s,
        set_next_wp: true,
        yaw_set_default: !skip_yaw,
        submode: Some(AutoSubMode::Wp),
    }
}

/// What starting an unlimited loiter reads.
#[derive(Debug, Clone, Copy, PartialEq, Eq, Structural)]
pub struct AutoLoiterUnlimitedView {
    /// Whether the waypoint controller is active.
    pub wp_nav_active: bool,
    /// Whether it has reached its destination.
    pub reached_wp_destination: bool,
    /// Whether that destination can be read.
    pub wp_dest_loc_ok: bool,
    /// Whether the command's location could be read.
    pub dest_loc_ok: bool,
    /// The waypoint start.
    pub wp: AutoWpStartView,
}

impl AutoLoiterUnlimitedView {
    /// An idle controller, the destination accepted.
    pub fn ready() -> (r: AutoLoiterUnlimitedView)
        ensures
            r == AutoLoiterUnlimitedView::ready_spec(),
    {
        AutoLoiterUnlimitedView {
            wp_nav_active: false,
            reached_wp_destination: false,
            wp_dest_loc_ok: false,
            dest_loc_ok: true,
            wp: AutoWpStartView::idle_loiter(),
        }
    }

    /// The ready view.
    pub open spec fn ready_spec() -> AutoLoiterUnlimitedView {
        AutoLoiterUnlimitedView {
            wp_nav_active: false,
            reached_wp_destination: false,
            wp_dest_loc_ok: false,
            dest_loc_ok: true,
            wp: AutoWpStartView::idle_loiter_spec(),
        }
    }

    /// Parked on the last waypoint.
    pub fn from_reached_wp() -> (r: AutoLoiterUnlimitedView)
        ensures
            r == (AutoLoiterUnlimitedView {
                wp_nav_active: true,
                reached_wp_destination: true,
                wp_dest_loc_ok: true,
                dest_loc_ok: true,
                wp: AutoWpStartView { wp_nav_active: true, ..AutoWpStartView::idle_loiter_spec() },
            }),
    {
        let mut view = AutoLoiterUnlimitedView::ready();
        view.wp_nav_active = true;
        view.reached_wp_destination = true;
        view.wp_dest_loc_ok = true;
        view.wp.wp_nav_active = true;
        view
    }

    /// The command's location refused.
    pub fn dest_refused() -> (r: AutoLoiterUnlimitedView)
        ensures
            r == (AutoLoiterUnlimitedView {
                dest_loc_ok: false,
                ..AutoLoiterUnlimitedView::ready_spec()
            }),
    {
        let mut view = AutoLoiterUnlimitedView::ready();
        view.dest_loc_ok = false;
        view
    }

    /// The waypoint start refused.
    pub fn wp_refused() -> (r: AutoLoiterUnlimitedView)
        ensures
            r == (AutoLoiterUnlimitedView {
                wp: AutoWpStartView { dest_accepted: false, ..AutoWpStartView::idle_loiter_spec() },
                ..AutoLoiterUnlimitedView::ready_spec()
            }),
    {
        let mut view = AutoLoiterUnlimitedView::ready();
        view.wp = AutoWpStartView::dest_refused();
        view
    }
}

/// What starting an unlimited loiter did.
#[derive(Debug, Clone, Copy, PartialEq, Eq, Structural)]
pub struct AutoLoiterUnlimited {
    /// Whether it succeeded.
    pub ok: bool,
    /// Whether the default location came from the controller's destination.
    pub default_from_wp_dest: bool,
    /// Whether an internal error was reported (that destination unreadable).
    pub dest_loc_flow_of_control: bool,
    /// Whether the terrain failsafe ran.
    pub terrain_failsafe: bool,
    /// The waypoint start (not run when the location was refused).
    pub wp: AutoWpStart,
    /// The submode afterwards.
    pub submode: Option<AutoSubMode>,
}

/// A waypoint start that never ran.
pub open spec fn wp_start_not_run() -> AutoWpStart {
    AutoWpStart {
        ok: false,
        wp_and_spline_init: false,
        init_with_xy_override: false,
        stopping_point_from_takeoff: false,
        set_speed_up: false,
        set_speed_down: false,
        set_wp_destination: false,
        yaw_set_default: false,
        submode: None,
    }
}

fn wp_start_not_called() -> (r: AutoWpStart)
    ensures
        r == wp_start_not_run(),
{
    AutoWpStart {
        ok: false,
        wp_and_spline_init: false,
        init_with_xy_override: false,
        stopping_point_from_takeoff: false,
        set_speed_up: false,
        set_speed_down: false,
        set_wp_destination: false,
        yaw_set_default: false,
        submode: None,
    }
}

/// Starting an unlimited loiter: the default location, the command's
/// location, then a waypoint start. Either refusal runs the terrain failsafe.
pub open spec fn loiter_unlimited_outcome(v: AutoLoiterUnlimitedView) -> AutoLoiterUnlimited {
    let parked = v.wp_nav_active && v.reached_wp_destination;
    let wp = if v.dest_loc_ok { wp_start_outcome(v.wp) } else { wp_start_not_run() };
    let ok = v.dest_loc_ok && wp.ok;
    AutoLoiterUnlimited {
        ok,
        default_from_wp_dest: parked && v.wp_dest_loc_ok,
        dest_loc_flow_of_control: parked && !v.wp_dest_loc_ok,
        terrain_failsafe: !ok,
        wp,
        submode: if ok { wp.submode } else { None },
    }
}

/// Starting an unlimited loiter.
pub fn auto_loiter_unlimited(view: &AutoLoiterUnlimitedView) -> (r: AutoLoiterUnlimited)
    ensures
        r == loiter_unlimited_outcome(*view),
{
    let mut default_from_wp_dest = false;
    let mut dest_loc_flow_of_control = false;
    if view.wp_nav_active && view.reached_wp_destination {
        if view.wp_dest_loc_ok {
            default_from_wp_dest = true;
        } else {
            dest_loc_flow_of_control = true;
        }
    }
    if !view.dest_loc_ok {
        return AutoLoiterUnlimited {
            ok: false,
            default_from_wp_dest,
            dest_loc_flow_of_control,
            terrain_failsafe: true,
            wp: wp_start_not_called(),
            submode: None,
        };
    }
    let wp = auto_wp_start(&view.wp);
    if !wp.ok {
        return AutoLoiterUnlimited {
            ok: false,
            default_from_wp_dest,
            dest_loc_flow_of_control,
            terrain_failsafe: true,
            wp,
            submode: None,
        };
    }
    AutoLoiterUnlimited {
        ok: true,
        default_from_wp_dest,
        dest_loc_flow_of_control,
        terrain_failsafe: false,
        wp,
        submode: wp.submode,
    }
}

/// What starting a timed loiter reads.
#[derive(Debug, Clone, Copy, PartialEq, Eq, Structural)]
pub struct AutoLoiterTimeView {
    /// The unlimited loiter it builds on.
    pub unlimited: AutoLoiterUnlimitedView,
    /// The delay at the loiter point, in seconds.
    pub delay_s: u16,
}

impl AutoLoiterTimeView {
    /// Destination accepted, a ten-second loiter.
    pub fn ready() -> (r: AutoLoiterTimeView)
        ensures
            r == (AutoLoiterTimeView { unlimited: AutoLoiterUnlimitedView::ready_spec(), delay_s: 10 }),
    {
        AutoLoiterTimeView { unlimited: AutoLoiterUnlimitedView::ready(), delay_s: 10 }
    }
}

/// What starting a timed loiter did.
#[derive(Debug, Clone, Copy, PartialEq, Eq, Structural)]
pub struct AutoLoiterTime {
    /// The unlimited loiter.
    pub unlimited: AutoLoiterUnlimited,
    /// Whether the loiter timer was cleared.
    pub loiter_time_cleared: bool,
    /// The delay latched; zero when the loiter was refused.
    pub loiter_time_max_s: u16,
}

/// Starting a timed loiter: the unlimited loiter, then the timer (untouched on
/// refusal).
pub fn auto_loiter_time(view: &AutoLoiterTimeView) -> (r: AutoLoiterTime)
    ensures
        r.unlimited == loiter_unlimited_outcome(view.unlimited),
        r.loiter_time_cleared == r.unlimited.ok,
        r.loiter_time_max_s == (if r.unlimited.ok { view.delay_s } else { 0 }),
{
    let unlimited = auto_loiter_unlimited(&view.unlimited);
    if !unlimited.ok {
        return AutoLoiterTime { unlimited, loiter_time_cleared: false, loiter_time_max_s: 0 };
    }
    AutoLoiterTime { unlimited, loiter_time_cleared: true, loiter_time_max_s: view.delay_s }
}

/// What starting a loiter to an altitude reads. The vertical limits copied to
/// the position controller are the waypoint controller's.
#[derive(Debug, Clone, Copy, PartialEq, Eq, Structural)]
pub struct AutoLoiterToAltView {
    /// The unlimited loiter it builds on.
    pub unlimited: AutoLoiterUnlimitedView,
    /// Whether the command's latitude and longitude are zero.
    pub lat_lng_zero: bool,
    /// Whether the target converts to a height above home.
    pub alt_ok: bool,
}

impl AutoLoiterToAltView {
    /// Destination accepted, a real position, the height readable.
    pub fn ready() -> (r: AutoLoiterToAltView)
        ensures
            r == AutoLoiterToAltView::ready_spec(),
    {
        AutoLoiterToAltView {
            unlimited: AutoLoiterUnlimitedView::ready(),
            lat_lng_zero: false,
            alt_ok: true,
        }
    }

    /// The ready view.
    pub open spec fn ready_spec() -> AutoLoiterToAltView {
        AutoLoiterToAltView {
            unlimited: AutoLoiterUnlimitedView::ready_spec(),
            lat_lng_zero: false,
            alt_ok: true,
        }
    }

    /// A zero position: the current one is used.
    pub fn current_lat_lng() -> (r: AutoLoiterToAltView)
        ensures
            r == (AutoLoiterToAltView { lat_lng_zero: true, ..AutoLoiterToAltView::ready_spec() }),
    {
        let mut view = AutoLoiterToAltView::ready();
        view.lat_lng_zero = true;
        view
    }

    /// The height could not be read.
    pub fn bad_alt() -> (r: AutoLoiterToAltView)
        ensures
            r == (AutoLoiterToAltView { alt_ok: false, ..AutoLoiterToAltView::ready_spec() }),
    {
        let mut view = AutoLoiterToAltView::ready();
        view.alt_ok = false;
        view
    }
}

/// What starting a loiter to an altitude did.
#[derive(Debug, Clone, Copy, PartialEq, Eq, Structural)]
pub struct AutoLoiterToAlt {
    /// The unlimited loiter.
    pub unlimited: AutoLoiterUnlimited,
    /// Whether the current position replaced a zero one.
    pub used_current_lat_lng: bool,
    /// Whether "bad do_loiter_to_alt" was sent.
    pub bad_alt: bool,
    /// The horizontal target counts as reached.
    pub reached_destination_xy: bool,
    /// The loiter start is done.
    pub loiter_start_done: bool,
    /// The altitude counts as reached.
    pub reached_alt: bool,
    /// The vertical limits were copied to the position controller.
    pub d_limits_set: bool,
    /// The submode afterwards.
    pub submode: Option<AutoSubMode>,
}

/// Starting a loiter to an altitude: the unlimited loiter; then a bad height
/// marks both targets reached and stays in Wp, and a good one clears the
/// flags, copies the vertical limits and parks in LoiterToAlt.
pub open spec fn loiter_to_alt_outcome(v: AutoLoiterToAltView) -> AutoLoiterToAlt {
    let u = loiter_unlimited_outcome(v.unlimited);
    if !u.ok {
        AutoLoiterToAlt {
            unlimited: u,
            used_current_lat_lng: false,
            bad_alt: false,
            reached_destination_xy: false,
            loiter_start_done: false,
            reached_alt: false,
            d_limits_set: false,
            submode: None,
        }
    } else if !v.alt_ok {
        AutoLoiterToAlt {
            unlimited: u,
            used_current_lat_lng: v.lat_lng_zero,
            bad_alt: true,
            reached_destination_xy: true,
            loiter_start_done: false,
            reached_alt: true,
            d_limits_set: false,
            submode: u.submode,
        }
    } else {
        AutoLoiterToAlt {
            unlimited: u,
            used_current_lat_lng: v.lat_lng_zero,
            bad_alt: false,
            reached_destination_xy: false,
            loiter_start_done: false,
            reached_alt: false,
            d_limits_set: true,
            submode: Some(AutoSubMode::LoiterToAlt),
        }
    }
}

/// Starting a loiter to an altitude.
pub fn auto_loiter_to_alt(view: &AutoLoiterToAltView) -> (r: AutoLoiterToAlt)
    ensures
        r == loiter_to_alt_outcome(*view),
{
    let unlimited = auto_loiter_unlimited(&view.unlimited);
    if !unlimited.ok {
        return AutoLoiterToAlt {
            unlimited,
            used_current_lat_lng: false,
            bad_alt: false,
            reached_destination_xy: false,
            loiter_start_done: false,
            reached_alt: false,
            d_limits_set: false,
            submode: None,
        };
    }
    let used_current_lat_lng = view.lat_lng_zero;
    if !view.alt_ok {
        return AutoLoiterToAlt {
            unlimited,
            used_current_lat_lng,
            bad_alt: true,
            reached_destination_xy: true,
            loiter_start_done: false,
            reached_alt: true,
            d_limits_set: false,
            submode: unlimited.submode,
        };
    }
    AutoLoiterToAlt {
        unlimited,
        used_current_lat_lng,
        bad_alt: false,
        reached_destination_xy: false,
        loiter_start_done: false,
        reached_alt: false,
        d_limits_set: true,
        submode: Some(AutoSubMode::LoiterToAlt),
    }
}

/// Speed type: airspeed.
pub const SPEED_TYPE_AIRSPEED: u8 = 0;
/// Speed type: ground speed.
pub const SPEED_TYPE_GROUNDSPEED: u8 = 1;
/// Speed type: climb speed.
pub const SPEED_TYPE_CLIMB_SPEED: u8 = 2;
/// Speed type: descent speed.
pub const SPEED_TYPE_DESCENT_SPEED: u8 = 3;

/// The high byte of a command parameter.
pub fn highbyte(p1: u16) -> (r: u16)
    ensures
        r == p1 / 256,
{
    assert(p1 >> 8 == p1 / 256) by (bit_vector);
    p1 >> 8
}

/// The low byte of a command parameter.
pub fn lowbyte(p1: u16) -> (r: u16)
    ensures
        r == p1 % 256,
{
    assert(p1 & 0x00ff == p1 % 256) by (bit_vector);
    p1 & 0x00ff
}

/// A circle's radius in metres: the parameter's high byte, ten times that for
/// a loiter-turns command with the large-radius bit.
pub fn circle_radius_m(p1: u16, nav_loiter_turns: bool, large_radius: bool) -> (r: u16)
    ensures
        r == (if nav_loiter_turns && large_radius { (p1 / 256) * 10 } else { (p1 / 256) as int }),
{
    let mut radius = highbyte(p1);
    if nav_loiter_turns && large_radius {
        radius = radius * 10;
    }
    radius
}

/// How a circle sets the yaw.
#[derive(Debug, Clone, Copy, PartialEq, Eq, Structural)]
pub enum AutoCircleYaw {
    /// Left alone: a region of interest holds it.
    Unchanged,
    /// The default yaw (outside the circle and more than 5 m from the centre).
    Default,
    /// Hold (inside, or within 5 m of the centre).
    Hold,
    /// Follow the circle.
    Circle,
}

/// What starting a circle reads.
#[derive(Debug, Clone, Copy, PartialEq, Eq, Structural)]
pub struct AutoCircleView {
    /// Whether the command's location could be read.
    pub dest_ok: bool,
    /// Whether the command is loiter turns.
    pub nav_loiter_turns: bool,
    /// The command's first parameter.
    pub p1: u16,
    /// Whether the large-radius bit is set.
    pub large_radius: bool,
    /// Whether the vehicle is more than 3 m from the circle's edge.
    pub far_from_edge: bool,
    /// Whether the controller accepted the edge as a destination.
    pub dest_accepted: bool,
    /// Whether the vehicle is further from the centre than both the radius
    /// and 5 m.
    pub outside_circle: bool,
    /// Whether the yaw mode is a region of interest.
    pub auto_yaw_is_roi: bool,
}

impl AutoCircleView {
    /// A 20 m circle, 10 m from its edge.
    pub fn ready_to_edge() -> (r: AutoCircleView)
        ensures
            r == AutoCircleView::ready_to_edge_spec(),
    {
        AutoCircleView {
            dest_ok: true,
            nav_loiter_turns: true,
            p1: 0x1400,
            large_radius: false,
            far_from_edge: true,
            dest_accepted: true,
            outside_circle: true,
            auto_yaw_is_roi: false,
        }
    }

    /// The view 10 m from the edge of a 20 m circle.
    pub open spec fn ready_to_edge_spec() -> AutoCircleView {
        AutoCircleView {
            dest_ok: true,
            nav_loiter_turns: true,
            p1: 0x1400,
            large_radius: false,
            far_from_edge: true,
            dest_accepted: true,
            outside_circle: true,
            auto_yaw_is_roi: false,
        }
    }

    /// Already on the edge.
    pub fn already_on_edge() -> (r: AutoCircleView)
        ensures
            r == (AutoCircleView {
                far_from_edge: false,
                outside_circle: false,
                ..AutoCircleView::ready_to_edge_spec()
            }),
    {
        let mut view = AutoCircleView::ready_to_edge();
        view.far_from_edge = false;
        view.outside_circle = false;
        view
    }

    /// The command's location refused.
    pub fn dest_refused() -> (r: AutoCircleView)
        ensures
            r == (AutoCircleView { dest_ok: false, ..AutoCircleView::ready_to_edge_spec() }),
    {
        let mut view = AutoCircleView::ready_to_edge();
        view.dest_ok = false;
        view
    }
}

/// What starting a circle did. The signed rate (negative counter-clockwise)
/// is the caller's.
#[derive(Debug, Clone, Copy, PartialEq, Eq, Structural)]
pub struct AutoCircle {
    /// Whether the start went past the location check.
    pub ok: bool,
    /// Whether the terrain failsafe ran.
    pub terrain_failsafe: bool,
    /// The radius set, in metres.
    pub radius_m: u16,
    /// Whether the vehicle first flies to the edge.
    pub move_to_edge: bool,
    /// Whether the edge was set as a destination.
    pub set_wp_destination: bool,
    /// The yaw.
    pub yaw: AutoCircleYaw,
    /// The submode afterwards.
    pub submode: Option<AutoSubMode>,
    /// Whether the count of completed turns was reset.
    pub reset_last_num_complete: bool,
}

/// Starting a circle. A refused location runs the terrain failsafe and stops.
/// More than 3 m from the edge: fly there (a refused edge still sets the yaw
/// and the submode, and runs the terrain failsafe). On the edge: circle. The
/// turn count is reset either way.
pub open spec fn circle_outcome(v: AutoCircleView) -> AutoCircle {
    let radius = (if v.nav_loiter_turns && v.large_radius {
        (v.p1 / 256) * 10
    } else {
        (v.p1 / 256) as int
    }) as u16;
    if !v.dest_ok {
        AutoCircle {
            ok: false,
            terrain_failsafe: true,
            radius_m: 0,
            move_to_edge: false,
            set_wp_destination: false,
            yaw: AutoCircleYaw::Unchanged,
            submode: None,
            reset_last_num_complete: false,
        }
    } else if v.far_from_edge {
        AutoCircle {
            ok: true,
            terrain_failsafe: !v.dest_accepted,
            radius_m: radius,
            move_to_edge: true,
            set_wp_destination: true,
            yaw: if v.auto_yaw_is_roi {
                AutoCircleYaw::Unchanged
            } else if v.outside_circle {
                AutoCircleYaw::Default
            } else {
                AutoCircleYaw::Hold
            },
            submode: Some(AutoSubMode::CircleMoveToEdge),
            reset_last_num_complete: true,
        }
    } else {
        AutoCircle {
            ok: true,
            terrain_failsafe: false,
            radius_m: radius,
            move_to_edge: false,
            set_wp_destination: false,
            yaw: if v.auto_yaw_is_roi { AutoCircleYaw::Unchanged } else { AutoCircleYaw::Circle },
            submode: Some(AutoSubMode::Circle),
            reset_last_num_complete: true,
        }
    }
}

/// The yaw when a circle starts: a region of interest keeps it.
pub(crate) fn circle_start_yaw(auto_yaw_is_roi: bool) -> (r: AutoCircleYaw)
    ensures
        r == (if auto_yaw_is_roi { AutoCircleYaw::Unchanged } else { AutoCircleYaw::Circle }),
{
    if auto_yaw_is_roi {
        AutoCircleYaw::Unchanged
    } else {
        AutoCircleYaw::Circle
    }
}

/// Starting a circle.
pub fn auto_circle(view: &AutoCircleView) -> (r: AutoCircle)
    ensures
        r == circle_outcome(*view),
{
    if !view.dest_ok {
        return AutoCircle {
            ok: false,
            terrain_failsafe: true,
            radius_m: 0,
            move_to_edge: false,
            set_wp_destination: false,
            yaw: AutoCircleYaw::Unchanged,
            submode: None,
            reset_last_num_complete: false,
        };
    }
    let radius_m = circle_radius_m(view.p1, view.nav_loiter_turns, view.large_radius);
    if view.far_from_edge {
        let yaw = if view.auto_yaw_is_roi {
            AutoCircleYaw::Unchanged
        } else if view.outside_circle {
            AutoCircleYaw::Default
        } else {
            AutoCircleYaw::Hold
        };
        return AutoCircle {
            ok: true,
            terrain_failsafe: !view.dest_accepted,
            radius_m,
            move_to_edge: true,
            set_wp_destination: true,
            yaw,
            submode: Some(AutoSubMode::CircleMoveToEdge),
            reset_last_num_complete: true,
        };
    }
    AutoCircle {
        ok: true,
        terrain_failsafe: false,
        radius_m,
        move_to_edge: false,
        set_wp_destination: false,
        yaw: circle_start_yaw(view.auto_yaw_is_roi),
        submode: Some(AutoSubMode::Circle),
        reset_last_num_complete: true,
    }
}

/// How a yaw command turns. Its angle and rate, in radians, are the caller's.
#[derive(Debug, Clone, Copy, PartialEq, Eq, Structural)]
pub struct AutoDoYawTurn {
    /// Which way it turns.
    pub direction: FixedYawDirection,
    /// Whether the angle is relative: only for a positive flag; zero and
    /// negative are absolute.
    pub relative: bool,
}

/// How a yaw command turns.
pub fn auto_do_yaw_turn(direction: i8, relative_angle: i8) -> (r: AutoDoYawTurn)
    ensures
        r.direction == (if direction < 0 {
            FixedYawDirection::CounterClockwise
        } else if direction > 0 {
            FixedYawDirection::Clockwise
        } else {
            FixedYawDirection::Shortest
        }),
        r.relative == (relative_angle > 0),
{
    AutoDoYawTurn { direction: FixedYawDirection::from_sign(direction), relative: relative_angle > 0 }
}

/// What a region-of-interest command reads.
#[derive(Debug, Clone, Copy, PartialEq, Eq, Structural)]
pub struct AutoDoRoiView {
    /// Whether the command's location is set.
    pub location_initialised: bool,
    /// Whether the mount can pan.
    pub mount_has_pan_control: bool,
}

impl AutoDoRoiView {
    /// A real location and a mount that cannot pan: the airframe points.
    pub fn point_airframe() -> (r: AutoDoRoiView)
        ensures
            r == (AutoDoRoiView { location_initialised: true, mount_has_pan_control: false }),
    {
        AutoDoRoiView { location_initialised: true, mount_has_pan_control: false }
    }

    /// No location: cancel.
    pub fn cancel() -> (r: AutoDoRoiView)
        ensures
            r == (AutoDoRoiView { location_initialised: false, mount_has_pan_control: false }),
    {
        AutoDoRoiView { location_initialised: false, mount_has_pan_control: false }
    }
}

/// What a region-of-interest command does.
#[derive(Debug, Clone, Copy, PartialEq, Eq, Structural)]
pub struct AutoDoRoi {
    /// The yaw's decision.
    pub action: RoiAction,
}

/// A region-of-interest command: the yaw decides.
pub fn auto_do_roi(view: &AutoDoRoiView) -> (r: AutoDoRoi)
    ensures
        r.action == roi_action_spec(view.location_initialised, view.mount_has_pan_control),
{
    AutoDoRoi { action: roi_action(view.location_initialised, view.mount_has_pan_control) }
}

/// What a delay command reads.
#[derive(Debug, Clone, Copy, PartialEq, Eq, Structural)]
pub struct AutoNavDelayView {
    /// The command's seconds.
    pub seconds: i32,
    /// Whether the real-time clock is built in.
    pub rtc_enabled: bool,
    /// The delay to the command's time of day, in milliseconds.
    pub utc_delay_ms: u32,
}

impl AutoNavDelayView {
    /// Five seconds from now.
    pub fn relative_5s() -> (r: AutoNavDelayView)
        ensures
            r == (AutoNavDelayView { seconds: 5, rtc_enabled: true, utc_delay_ms: 0 }),
    {
        AutoNavDelayView { seconds: 5, rtc_enabled: true, utc_delay_ms: 0 }
    }

    /// A time of day, with the clock built in.
    pub fn utc() -> (r: AutoNavDelayView)
        ensures
            r == (AutoNavDelayView { seconds: 0, rtc_enabled: true, utc_delay_ms: 12_000 }),
    {
        AutoNavDelayView { seconds: 0, rtc_enabled: true, utc_delay_ms: 12_000 }
    }
}

/// What a delay command set.
#[derive(Debug, Clone, Copy, PartialEq, Eq, Structural)]
pub struct AutoNavDelay {
    /// Whether the delay is relative (positive seconds) rather than a time of
    /// day.
    pub relative: bool,
    /// The delay, in milliseconds.
    pub max_ms: u32,
}

/// A delay command: positive seconds are a relative delay (in milliseconds,
/// saturating); otherwise a time of day, which is zero without the clock.
pub fn auto_nav_delay(view: &AutoNavDelayView) -> (r: AutoNavDelay)
    ensures
        view.seconds > 0 ==> r == (AutoNavDelay {
            relative: true,
            max_ms: if view.seconds * 1000 > u32::MAX { u32::MAX } else { (view.seconds * 1000) as u32 },
        }),
        view.seconds <= 0 ==> r == (AutoNavDelay {
            relative: false,
            max_ms: if view.rtc_enabled { view.utc_delay_ms } else { 0 },
        }),
{
    if view.seconds > 0 {
        let ms: u64 = view.seconds as u64 * 1000;
        let max_ms: u32 = if ms > u32::MAX as u64 { u32::MAX } else { ms as u32 };
        return AutoNavDelay { relative: true, max_ms };
    }
    AutoNavDelay { relative: false, max_ms: if view.rtc_enabled { view.utc_delay_ms } else { 0 } }
}

/// Which speed a speed command sets.
#[derive(Debug, Clone, Copy, PartialEq, Eq, Structural)]
pub enum AutoSpeedAxis {
    /// None: a target that is not positive, or an unknown type.
    Unchanged,
    /// The climb speed.
    Climb,
    /// The descent speed.
    Descent,
    /// The horizontal speed (airspeed and ground speed alike).
    Horizontal,
}

/// What a speed command reads.
#[derive(Debug, Clone, Copy, PartialEq, Eq, Structural)]
pub struct AutoChangeSpeedView {
    /// Whether the target speed is positive.
    pub target_positive: bool,
    /// The speed type.
    pub speed_type: u8,
}

/// Which speed a speed command sets (the speed itself is the caller's).
pub fn auto_change_speed_axis(view: &AutoChangeSpeedView) -> (r: AutoSpeedAxis)
    ensures
        !view.target_positive ==> r == AutoSpeedAxis::Unchanged,
        view.target_positive ==> r == (if view.speed_type == SPEED_TYPE_CLIMB_SPEED {
            AutoSpeedAxis::Climb
        } else if view.speed_type == SPEED_TYPE_DESCENT_SPEED {
            AutoSpeedAxis::Descent
        } else if view.speed_type == SPEED_TYPE_AIRSPEED || view.speed_type
            == SPEED_TYPE_GROUNDSPEED {
            AutoSpeedAxis::Horizontal
        } else {
            AutoSpeedAxis::Unchanged
        }),
{
    if !view.target_positive {
        return AutoSpeedAxis::Unchanged;
    }
    match view.speed_type {
        SPEED_TYPE_CLIMB_SPEED => AutoSpeedAxis::Climb,
        SPEED_TYPE_DESCENT_SPEED => AutoSpeedAxis::Descent,
        SPEED_TYPE_AIRSPEED | SPEED_TYPE_GROUNDSPEED => AutoSpeedAxis::Horizontal,
        _ => AutoSpeedAxis::Unchanged,
    }
}

/// Which home a set-home command asks for.
#[derive(Debug, Clone, Copy, PartialEq, Eq, Structural)]
pub enum AutoSetHomeKind {
    /// The current location.
    Current,
    /// The command's location.
    Command,
}

/// What a set-home command reads.
#[derive(Debug, Clone, Copy, PartialEq, Eq, Structural)]
pub struct AutoSetHomeView {
    /// The command's first parameter.
    pub p1: u16,
    /// Whether the command's location is set.
    pub location_initialised: bool,
}

impl AutoSetHomeView {
    /// "Use the current location".
    pub fn current() -> (r: AutoSetHomeView)
        ensures
            r == (AutoSetHomeView { p1: 1, location_initialised: true }),
    {
        AutoSetHomeView { p1: 1, location_initialised: true }
    }

    /// A real location.
    pub fn command() -> (r: AutoSetHomeView)
        ensures
            r == (AutoSetHomeView { p1: 0, location_initialised: true }),
    {
        AutoSetHomeView { p1: 0, location_initialised: true }
    }
}

/// What a set-home command does (failures are ignored).
#[derive(Debug, Clone, Copy, PartialEq, Eq, Structural)]
pub struct AutoSetHome {
    /// Which home.
    pub kind: AutoSetHomeKind,
}

/// A set-home command: the current location for a first parameter of 1 or
/// an unset location, else the command's.
pub fn auto_set_home(view: &AutoSetHomeView) -> (r: AutoSetHome)
    ensures
        r.kind == (if view.p1 == 1 || !view.location_initialised {
            AutoSetHomeKind::Current
        } else {
            AutoSetHomeKind::Command
        }),
{
    let kind = if view.p1 == 1 || !view.location_initialised {
        AutoSetHomeKind::Current
    } else {
        AutoSetHomeKind::Command
    };
    AutoSetHome { kind }
}

/// The stages of placing a payload.
#[derive(Debug, Clone, Copy, PartialEq, Eq, Structural)]
pub enum PayloadPlaceState {
    /// Fly to the command's location first.
    FlyToLocation,
    /// Start descending here.
    DescentStart,
    /// Descending.
    Descent,
    /// Release.
    Release,
    /// Releasing.
    Releasing,
    /// Waiting after the release.
    Delay,
    /// Start climbing.
    AscentStart,
    /// Climbing.
    Ascent,
    /// Done.
    Done,
}

/// What placing a payload reads. The maximum descent is the first parameter in
/// centimetres, converted by the caller.
#[derive(Debug, Clone, Copy, PartialEq, Eq, Structural)]
pub struct AutoPayloadPlaceView {
    /// Whether the command gives a location.
    pub location_provided: bool,
    /// Whether that location could be read.
    pub dest_ok: bool,
    /// The waypoint start for flying there.
    pub wp: AutoWpStartView,
    /// The first parameter, in centimetres.
    pub p1_cm: u16,
}

impl AutoPayloadPlaceView {
    /// No location: descend here.
    pub fn descent_here() -> (r: AutoPayloadPlaceView)
        ensures
            r == (AutoPayloadPlaceView {
                location_provided: false,
                dest_ok: true,
                wp: AutoWpStartView::idle_loiter_spec(),
                p1_cm: 500,
            }),
    {
        AutoPayloadPlaceView {
            location_provided: false,
            dest_ok: true,
            wp: AutoWpStartView::idle_loiter(),
            p1_cm: 500,
        }
    }

    /// Fly to a location first.
    pub fn fly_to() -> (r: AutoPayloadPlaceView)
        ensures
            r == (AutoPayloadPlaceView {
                location_provided: true,
                dest_ok: true,
                wp: AutoWpStartView::idle_loiter_spec(),
                p1_cm: 500,
            }),
    {
        AutoPayloadPlaceView {
            location_provided: true,
            dest_ok: true,
            wp: AutoWpStartView::idle_loiter(),
            p1_cm: 500,
        }
    }
}

/// What placing a payload did.
#[derive(Debug, Clone, Copy, PartialEq, Eq, Structural)]
pub struct AutoPayloadPlace {
    /// Whether it started.
    pub ok: bool,
    /// Whether the terrain failsafe ran.
    pub terrain_failsafe: bool,
    /// The stage afterwards.
    pub state: Option<PayloadPlaceState>,
    /// The waypoint start (when flying to a location).
    pub wp: AutoWpStart,
    /// The submode afterwards.
    pub submode: Option<AutoSubMode>,
}

/// Placing a payload: with a location, fly there through a waypoint start
/// (either refusal runs the terrain failsafe); without one, start descending.
pub open spec fn payload_place_outcome(v: AutoPayloadPlaceView) -> AutoPayloadPlace {
    if v.location_provided {
        let wp = if v.dest_ok { wp_start_outcome(v.wp) } else { wp_start_not_run() };
        if !v.dest_ok || !wp.ok {
            AutoPayloadPlace {
                ok: false,
                terrain_failsafe: true,
                state: None,
                wp,
                submode: None,
            }
        } else {
            AutoPayloadPlace {
                ok: true,
                terrain_failsafe: false,
                state: Some(PayloadPlaceState::FlyToLocation),
                wp,
                submode: Some(AutoSubMode::NavPayloadPlace),
            }
        }
    } else {
        AutoPayloadPlace {
            ok: true,
            terrain_failsafe: false,
            state: Some(PayloadPlaceState::DescentStart),
            wp: wp_start_not_run(),
            submode: Some(AutoSubMode::NavPayloadPlace),
        }
    }
}

/// Placing a payload.
pub fn auto_payload_place(view: &AutoPayloadPlaceView) -> (r: AutoPayloadPlace)
    ensures
        r == payload_place_outcome(*view),
{
    if view.location_provided {
        if !view.dest_ok {
            return AutoPayloadPlace {
                ok: false,
                terrain_failsafe: true,
                state: None,
                wp: wp_start_not_called(),
                submode: None,
            };
        }
        let wp = auto_wp_start(&view.wp);
        if !wp.ok {
            return AutoPayloadPlace {
                ok: false,
                terrain_failsafe: true,
                state: None,
                wp,
                submode: None,
            };
        }
        return AutoPayloadPlace {
            ok: true,
            terrain_failsafe: false,
            state: Some(PayloadPlaceState::FlyToLocation),
            wp,
            submode: Some(AutoSubMode::NavPayloadPlace),
        };
    }
    AutoPayloadPlace {
        ok: true,
        terrain_failsafe: false,
        state: Some(PayloadPlaceState::DescentStart),
        wp: wp_start_not_called(),
        submode: Some(AutoSubMode::NavPayloadPlace),
    }
}

} // verus!
