use ap_copter::auto_yaw::{FixedYawDirection, RoiAction};
use ap_copter::mode_auto::{
    auto_change_speed_axis, auto_circle, auto_do_roi, auto_do_yaw_turn, auto_init,
    auto_land_start, auto_loiter_time, auto_loiter_to_alt, auto_loiter_unlimited,
    auto_mode_flags, auto_mode_number, auto_nav_delay, auto_payload_place, auto_rtl_from_init,
    auto_run, auto_set_home, auto_spline_from_cmd, auto_spline_start, auto_start_command,
    auto_takeoff_start, auto_verify_command, auto_verify_land, auto_verify_loiter_to_alt,
    auto_verify_loiter_unlimited, auto_verify_nav_attitude_time, auto_verify_nav_delay,
    auto_verify_nav_guided_enable, auto_verify_nav_script_time, auto_verify_nav_wp,
    auto_verify_payload_place, auto_verify_rtl, auto_verify_wait_delay,
    auto_verify_within_distance, auto_verify_yaw, auto_wp_start, circle_radius_m, highbyte,
    lowbyte, AutoChangeSpeedView, AutoCircleView, AutoCircleYaw, AutoDoRoiView, AutoInitView,
    AutoLandState, AutoLandStartView, AutoLoiterTimeView, AutoLoiterToAltView,
    AutoLoiterUnlimitedView, AutoMissionChangeText, AutoNavDelayView, AutoPayloadPlaceView,
    AutoRunBody, AutoRunView, AutoSetHomeKind, AutoSetHomeView, AutoSpeedAxis,
    AutoSplineFromCmdView, AutoSplineStartView, AutoStartFeatures, AutoStartHandler,
    AutoSubMode, AutoTakeoffStartView, AutoVerifyHandler, AutoVerifyLandView,
    AutoVerifyNavDelayView, AutoVerifyNavGuidedView, AutoVerifyNavScriptTimeView,
    AutoVerifyRtlView, AutoVerifyWaitDelayView, AutoVerifyWpTimerView, AutoWpStartView,
    PayloadPlaceState, RtlSubMode, TakeoffAltSource, MAV_CMD_DO_WINCH, MAV_CMD_NAV_LAND,
    MAV_CMD_NAV_LOITER_TO_ALT, MAV_CMD_NAV_PAYLOAD_PLACE, MAV_CMD_NAV_WAYPOINT,
    SPEED_TYPE_DESCENT_SPEED, SPEED_TYPE_GROUNDSPEED,
};

#[test]
fn entering_auto() {
    let ok = auto_init(&AutoInitView::airborne_with_mission());
    assert!(ok.ok && ok.waiting_to_start && !ok.auto_rtl);
    assert_eq!(ok.submode, Some(AutoSubMode::Loiter));
    let no_takeoff = auto_init(&AutoInitView::landed_armed_without_takeoff());
    assert!(!no_takeoff.ok && no_takeoff.missing_takeoff_cmd);
    let empty = auto_init(&AutoInitView::no_mission());
    assert!(!empty.ok && !empty.missing_takeoff_cmd);
    let bench = auto_init(&AutoInitView { ignore_checks: true, ..AutoInitView::no_mission() });
    assert!(bench.ok);
    let ignore_on_ground = auto_init(&AutoInitView {
        ignore_checks: true,
        ..AutoInitView::landed_armed_without_takeoff()
    });
    assert!(!ignore_on_ground.ok);
    assert_eq!(auto_mode_number(true), 27);
    assert_eq!(auto_mode_number(false), 3);
    assert!(auto_mode_flags().requires_terrain_failsafe);
}

#[test]
fn start_and_verify_dispatch() {
    let none = AutoStartFeatures::none();
    let all = AutoStartFeatures::all();
    let r = auto_start_command(MAV_CMD_NAV_WAYPOINT, none);
    assert!(r.accepted);
    assert_eq!(r.handler, AutoStartHandler::DoNavWp);
    let r = auto_start_command(MAV_CMD_DO_WINCH, none);
    assert!(!r.accepted);
    assert_eq!(r.handler, AutoStartHandler::Unknown);
    assert!(auto_start_command(MAV_CMD_DO_WINCH, all).accepted);
    assert!(!auto_start_command(1, all).accepted);
    assert_eq!(auto_start_command(189, none).handler, AutoStartHandler::NoOp);
    let v = auto_verify_command(true, MAV_CMD_NAV_LAND, none);
    assert_eq!(v.handler, AutoVerifyHandler::VerifyLand);
    assert!(!v.immediate_complete);
    let v = auto_verify_command(true, 1, none);
    assert_eq!(v.handler, AutoVerifyHandler::SkipInvalid);
    assert!(v.immediate_complete && v.skip_invalid_text);
    let v = auto_verify_command(true, MAV_CMD_DO_WINCH, all);
    assert_eq!(v.handler, AutoVerifyHandler::DoAlwaysComplete);
    assert!(v.immediate_complete && !v.skip_invalid_text);
    assert_eq!(auto_verify_command(true, MAV_CMD_NAV_PAYLOAD_PLACE, none).handler, AutoVerifyHandler::SkipInvalid);
    assert!(auto_verify_command(true, MAV_CMD_NAV_LOITER_TO_ALT, none).early_return);
    assert!(!auto_verify_command(false, MAV_CMD_NAV_LAND, all).ran);
    for id in [16u16, 17, 18, 19, 20, 21, 22, 31, 36, 82, 84, 85, 92, 93, 94, 112, 114, 115, 178, 179, 188, 189, 195, 197, 201, 205, 222, 42600, 42702, 42703, 0, 7, 999] {
        for f in [none, all] {
            let accepted = auto_start_command(id, f).accepted;
            let skipped = auto_verify_command(true, id, f).handler == AutoVerifyHandler::SkipInvalid;
            assert_eq!(accepted, !skipped, "command {id}");
        }
    }
}

#[test]
fn auto_run_starts_once() {
    let r = auto_run(&AutoRunView::waiting_no_origin());
    assert!(!r.start_or_resume && r.waiting_to_start && !r.mission_update);
    assert_eq!(r.body, AutoRunBody::Loiter);
    let r = auto_run(&AutoRunView::waiting_with_origin());
    assert!(r.start_or_resume && !r.waiting_to_start && r.check_mission_change);
    let r = auto_run(&AutoRunView::running_wp());
    assert!(!r.start_or_resume && r.mission_update);
    assert_eq!(r.mission_change_text, AutoMissionChangeText::Silent);
    let changed = AutoRunView { mission_changed: true, restart_current_nav_cmd: false, ..AutoRunView::running_wp() };
    let r = auto_run(&changed);
    assert!(r.restart_current_nav_cmd);
    assert_eq!(r.mission_change_text, AutoMissionChangeText::RestartFailed);
    let rtl = AutoRunView { auto_rtl: true, ..AutoRunView::running_wp() };
    let r = auto_run(&rtl);
    assert!(!r.auto_rtl && r.log_auto_rtl_exit);
    let still = AutoRunView { auto_rtl: true, in_landing_sequence: true, ..AutoRunView::running_wp() };
    assert!(auto_run(&still).auto_rtl);
    let guided = AutoRunView { submode: AutoSubMode::NavScriptTime, nav_guided_or_scripting: false, ..AutoRunView::running_wp() };
    assert_eq!(auto_run(&guided).body, AutoRunBody::Idle);
}

#[test]
fn takeoff_waypoint_and_land_starts() {
    let r = auto_takeoff_start(&AutoTakeoffStartView::origin_airborne());
    assert!(r.ok && r.yaw_hold && r.min_climb_m == 0);
    assert_eq!(r.alt_source, Some(TakeoffAltSource::Origin));
    assert_eq!(r.submode, Some(AutoSubMode::Takeoff));
    assert_eq!(auto_takeoff_start(&AutoTakeoffStartView::landed()).min_climb_m, 1);
    let r = auto_takeoff_start(&AutoTakeoffStartView::uninitialised());
    assert!(!r.ok && r.flow_of_control_error && r.submode.is_none());
    let missing = AutoTakeoffStartView { dest_alt_frame_terrain: true, origin_alt_available: false, ..AutoTakeoffStartView::origin_airborne() };
    let r = auto_takeoff_start(&missing);
    assert!(r.missing_terrain_data);
    assert_eq!(r.alt_source, Some(TakeoffAltSource::CurrentPlusDest));

    let r = auto_wp_start(&AutoWpStartView::from_takeoff());
    assert!(r.ok && r.stopping_point_from_takeoff && r.yaw_set_default);
    let r = auto_wp_start(&AutoWpStartView::dest_refused());
    assert!(!r.ok && r.wp_and_spline_init && !r.yaw_set_default && r.submode.is_none());
    let roi = AutoWpStartView { auto_yaw_is_roi: true, ..AutoWpStartView::idle_loiter() };
    assert!(!auto_wp_start(&roi).yaw_set_default);
    let active = AutoWpStartView { wp_nav_active: true, up_override_set: true, ..AutoWpStartView::idle_loiter() };
    let r = auto_wp_start(&active);
    assert!(!r.wp_and_spline_init && !r.set_speed_up);

    let r = auto_land_start(&AutoLandStartView::ready());
    assert!(!r.init_ne && !r.init_d && r.deploy_landing_gear && r.yaw_hold);
    assert_eq!(r.submode, AutoSubMode::Land);
    assert_eq!(auto_rtl_from_init(true).submode, Some(AutoSubMode::Rtl));
    assert!(auto_rtl_from_init(false).flow_of_control_error);
}

#[test]
fn spline_and_loiters() {
    let s = auto_spline_from_cmd(&AutoSplineFromCmdView::through_to_wp());
    assert!(s.ok && !s.next_dest_is_dest && !s.next_dest_is_spline);
    let s = auto_spline_from_cmd(&AutoSplineFromCmdView::with_delay(3));
    assert!(s.ok && s.next_dest_is_dest && !s.next_dest_is_spline);
    assert!(auto_spline_from_cmd(&AutoSplineFromCmdView::last_segment()).next_dest_is_dest);
    let r = auto_spline_start(&AutoSplineStartView::ready());
    assert!(r.ok && r.set_next_wp && r.loiter_time_cleared);
    assert_eq!(r.submode, Some(AutoSubMode::Wp));
    let r = auto_spline_start(&AutoSplineStartView::next_wp_refused());
    assert!(!r.ok && r.terrain_failsafe && r.set_spline_destination && !r.yaw_set_default);
    assert!(auto_spline_start(&AutoSplineStartView::from_reached_wp()).default_from_wp_dest);
    assert!(!auto_spline_start(&AutoSplineStartView::dest_refused()).ok);
    assert!(!auto_spline_start(&AutoSplineStartView::dest_set_refused()).set_spline_destination);

    let r = auto_loiter_unlimited(&AutoLoiterUnlimitedView::ready());
    assert!(r.ok && r.submode == Some(AutoSubMode::Wp));
    assert!(auto_loiter_unlimited(&AutoLoiterUnlimitedView::dest_refused()).terrain_failsafe);
    assert!(auto_loiter_unlimited(&AutoLoiterUnlimitedView::wp_refused()).terrain_failsafe);
    assert!(auto_loiter_unlimited(&AutoLoiterUnlimitedView::from_reached_wp()).default_from_wp_dest);
    let t = auto_loiter_time(&AutoLoiterTimeView::ready());
    assert_eq!(t.loiter_time_max_s, 10);
    let a = auto_loiter_to_alt(&AutoLoiterToAltView::ready());
    assert_eq!(a.submode, Some(AutoSubMode::LoiterToAlt));
    let bad = auto_loiter_to_alt(&AutoLoiterToAltView::bad_alt());
    assert!(bad.bad_alt && bad.reached_alt && bad.reached_destination_xy);
    assert_eq!(bad.submode, Some(AutoSubMode::Wp));
    assert!(auto_loiter_to_alt(&AutoLoiterToAltView::current_lat_lng()).used_current_lat_lng);
}

#[test]
fn circle_and_parameters() {
    assert_eq!(highbyte(0x1403), 0x14);
    assert_eq!(lowbyte(0x1403), 0x03);
    assert_eq!(circle_radius_m(0x1400, true, true), 200);
    assert_eq!(circle_radius_m(0x1400, false, true), 20);
    let r = auto_circle(&AutoCircleView::ready_to_edge());
    assert!(r.move_to_edge && r.radius_m == 20 && r.reset_last_num_complete);
    assert_eq!(r.yaw, AutoCircleYaw::Default);
    assert_eq!(r.submode, Some(AutoSubMode::CircleMoveToEdge));
    let r = auto_circle(&AutoCircleView::already_on_edge());
    assert_eq!(r.yaw, AutoCircleYaw::Circle);
    assert_eq!(r.submode, Some(AutoSubMode::Circle));
    assert!(!auto_circle(&AutoCircleView::dest_refused()).ok);
    let turn = auto_do_yaw_turn(-1, 0);
    assert_eq!(turn.direction, FixedYawDirection::CounterClockwise);
    assert!(!turn.relative);
    assert!(auto_do_yaw_turn(1, 1).relative);
    assert_eq!(auto_do_roi(&AutoDoRoiView::cancel()).action, RoiAction::Cancel);
    assert_eq!(auto_do_roi(&AutoDoRoiView::point_airframe()).action, RoiAction::PointAirframe);
}

#[test]
fn do_commands() {
    let d = auto_nav_delay(&AutoNavDelayView::relative_5s());
    assert!(d.relative && d.max_ms == 5000);
    assert_eq!(auto_nav_delay(&AutoNavDelayView::utc()).max_ms, 12_000);
    let no_rtc = AutoNavDelayView { rtc_enabled: false, ..AutoNavDelayView::utc() };
    assert_eq!(auto_nav_delay(&no_rtc).max_ms, 0);
    let huge = AutoNavDelayView { seconds: i32::MAX, ..AutoNavDelayView::relative_5s() };
    assert_eq!(auto_nav_delay(&huge).max_ms, u32::MAX);
    assert_eq!(auto_change_speed_axis(&AutoChangeSpeedView { target_positive: true, speed_type: SPEED_TYPE_GROUNDSPEED }), AutoSpeedAxis::Horizontal);
    assert_eq!(auto_change_speed_axis(&AutoChangeSpeedView { target_positive: true, speed_type: SPEED_TYPE_DESCENT_SPEED }), AutoSpeedAxis::Descent);
    assert_eq!(auto_change_speed_axis(&AutoChangeSpeedView { target_positive: false, speed_type: SPEED_TYPE_GROUNDSPEED }), AutoSpeedAxis::Unchanged);
    assert_eq!(auto_change_speed_axis(&AutoChangeSpeedView { target_positive: true, speed_type: 9 }), AutoSpeedAxis::Unchanged);
    assert_eq!(auto_set_home(&AutoSetHomeView::current()).kind, AutoSetHomeKind::Current);
    assert_eq!(auto_set_home(&AutoSetHomeView::command()).kind, AutoSetHomeKind::Command);
    let p = auto_payload_place(&AutoPayloadPlaceView::descent_here());
    assert_eq!(p.state, Some(PayloadPlaceState::DescentStart));
    let p = auto_payload_place(&AutoPayloadPlaceView::fly_to());
    assert_eq!(p.state, Some(PayloadPlaceState::FlyToLocation));
    assert!(p.wp.ok);
}

#[test]
fn verify_checks() {
    let r = auto_verify_land(&AutoVerifyLandView::arrived());
    assert!(r.land_start && !r.complete);
    assert_eq!(r.state, AutoLandState::Descending);
    let r = auto_verify_land(&AutoVerifyLandView::landed());
    assert!(r.disarm && !r.complete);
    let cont = AutoVerifyLandView { continue_after_land: true, ..AutoVerifyLandView::landed() };
    let r = auto_verify_land(&cont);
    assert!(!r.disarm && r.complete);
    let w = auto_verify_nav_wp(&AutoVerifyWpTimerView::arrived_no_delay());
    assert!(w.complete && w.waypoint_complete_notify && w.timer_started);
    let w = auto_verify_nav_wp(&AutoVerifyWpTimerView::en_route());
    assert!(!w.complete && !w.waypoint_complete_notify);
    let w = auto_verify_nav_wp(&AutoVerifyWpTimerView::delay_done(5));
    assert!(w.complete && !w.waypoint_complete_notify);
    let started = AutoVerifyWpTimerView { reached_wp: true, timer_unset: true, elapsed_s: 0, loiter_time_max: 5 };
    assert!(auto_verify_nav_wp(&started).waypoint_complete_notify);
    assert!(!auto_verify_loiter_unlimited());
    assert!(auto_verify_loiter_to_alt(true, true));
    assert!(!auto_verify_loiter_to_alt(true, false));
    assert!(auto_verify_rtl(&AutoVerifyRtlView::landed()));
    assert!(!auto_verify_rtl(&AutoVerifyRtlView { state: RtlSubMode::ReturnHome, ..AutoVerifyRtlView::landed() }));
    assert!(!auto_verify_wait_delay(&AutoVerifyWaitDelayView::waiting()).complete);
    assert!(auto_verify_wait_delay(&AutoVerifyWaitDelayView::done()).cleared);
    assert!(!auto_verify_wait_delay(&AutoVerifyWaitDelayView { elapsed_ms: 3000, condition_value: 3000 }).complete);
    assert!(auto_verify_wait_delay(&AutoVerifyWaitDelayView { elapsed_ms: 1, condition_value: -5 }).complete);
    assert!(auto_verify_nav_delay(&AutoVerifyNavDelayView::done()).complete);
    assert!(!auto_verify_nav_delay(&AutoVerifyNavDelayView::waiting()).complete);
    assert!(auto_verify_nav_guided_enable(&AutoVerifyNavGuidedView { p1: 0, limit_check: false }));
    assert!(!auto_verify_nav_guided_enable(&AutoVerifyNavGuidedView { p1: 1, limit_check: false }));
    assert!(auto_verify_nav_script_time(&AutoVerifyNavScriptTimeView { done: false, timeout_s: 2, elapsed_ms: 2001 }));
    assert!(!auto_verify_nav_script_time(&AutoVerifyNavScriptTimeView { done: false, timeout_s: 0, elapsed_ms: 99999 }));
    assert!(auto_verify_nav_attitude_time(3001, 3));
    assert!(!auto_verify_nav_attitude_time(3000, 3));
    assert!(auto_verify_payload_place(PayloadPlaceState::Done));
    assert!(!auto_verify_payload_place(PayloadPlaceState::Ascent));
    assert!(auto_verify_within_distance(true).cleared);
    assert!(auto_verify_yaw(false).set_fixed);
}
