use ap_copter::auto_yaw::{
    default_yaw_mode, get_heading, heading_mode, pilot_yaw_override, reached_fixed_yaw_target,
    roi_action, set_mode, weathervane_action, yaw_mode_entry, yaw_rate_source, FixedYawDirection,
    GetHeadingContext, HeadingMode, PilotYawOverride, RoiAction, WeathervaneAction, WpYawBehaviour,
    YawAngleSource, YawMode, YawModeEntry, YawRateSource,
};
use ap_copter::auto_yaw::{set_rate, StoredRate};

#[test]
fn yaw_mode_numbers_round_trip() {
    for n in 0u8..=10 {
        let m = YawMode::from_number(n).unwrap();
        assert_eq!(m.as_number(), n);
    }
    assert_eq!(YawMode::from_number(11), None);
    assert!(YawMode::Roi.is_pilot_excluded());
    assert!(!YawMode::Hold.is_pilot_excluded());
}

#[test]
fn default_yaw_follows_the_waypoint_behaviour() {
    assert_eq!(WpYawBehaviour::from_number(0), WpYawBehaviour::Never);
    assert_eq!(WpYawBehaviour::from_number(9), WpYawBehaviour::LookAtNextWp);
    assert_eq!(default_yaw_mode(WpYawBehaviour::LookAtNextWpExceptRtl, true), YawMode::Hold);
    assert_eq!(
        default_yaw_mode(WpYawBehaviour::LookAtNextWpExceptRtl, false),
        YawMode::LookAtNextWp
    );
    assert_eq!(default_yaw_mode(WpYawBehaviour::LookAhead, true), YawMode::LookAhead);
}

#[test]
fn entering_rate_zeroes_the_rate_and_look_ahead_seeds() {
    assert_eq!(yaw_mode_entry(YawMode::Hold, YawMode::Hold), None);
    assert_eq!(yaw_mode_entry(YawMode::Hold, YawMode::Rate), Some(YawModeEntry::ZeroYawRate));
    assert_eq!(
        yaw_mode_entry(YawMode::Hold, YawMode::LookAhead),
        Some(YawModeEntry::SeedLookAheadFromCurrentYaw)
    );
    let s = set_mode(YawMode::Fixed, YawMode::Hold, YawMode::Rate);
    assert!(s.changed && s.zero_yaw_rate);
    assert_eq!(s.last_mode, YawMode::Fixed);
    let same = set_mode(YawMode::Rate, YawMode::Hold, YawMode::Rate);
    assert!(!same.changed);
    assert_eq!(same.last_mode, YawMode::Hold);
}

#[test]
fn heading_kinds_and_rate_sources() {
    assert_eq!(heading_mode(YawMode::Hold), HeadingMode::RateOnly);
    assert_eq!(heading_mode(YawMode::Fixed), HeadingMode::AngleAndRate);
    assert_eq!(yaw_rate_source(YawMode::LookAtNextWp), YawRateSource::PositionController);
    assert_eq!(yaw_rate_source(YawMode::PilotRate), YawRateSource::Pilot);
    assert_eq!(yaw_rate_source(YawMode::Circle), YawRateSource::Zero);
}

#[test]
fn pilot_and_weathervane_take_and_release_the_axis() {
    assert_eq!(pilot_yaw_override(YawMode::Fixed, true, true, true), PilotYawOverride::TakeControl);
    assert_eq!(pilot_yaw_override(YawMode::PilotRate, false, true, true), PilotYawOverride::ReleaseToHold);
    assert_eq!(pilot_yaw_override(YawMode::Fixed, true, true, false), PilotYawOverride::Leave);
    assert_eq!(weathervane_action(YawMode::Hold, YawMode::Hold, true, true), WeathervaneAction::Engage);
    assert_eq!(
        weathervane_action(YawMode::Weathervane, YawMode::Hold, true, false),
        WeathervaneAction::ReleaseToDefault
    );
    assert_eq!(
        weathervane_action(YawMode::Weathervane, YawMode::Fixed, false, true),
        WeathervaneAction::ReleaseTo(YawMode::Fixed)
    );
}

#[test]
fn roi_and_fixed_yaw_arrival() {
    assert_eq!(roi_action(false, true), RoiAction::Cancel);
    assert_eq!(roi_action(true, true), RoiAction::MountOnly);
    assert_eq!(roi_action(true, false), RoiAction::PointAirframe);
    assert_eq!(FixedYawDirection::from_sign(-3), FixedYawDirection::CounterClockwise);
    assert_eq!(FixedYawDirection::from_sign(0), FixedYawDirection::Shortest);
    assert!(reached_fixed_yaw_target(YawMode::Hold, false, false));
    assert!(!reached_fixed_yaw_target(YawMode::Fixed, false, true));
    assert!(reached_fixed_yaw_target(YawMode::Fixed, true, true));
}

fn heading_ctx() -> GetHeadingContext {
    GetHeadingContext {
        mode: YawMode::Fixed,
        last_mode: YawMode::Hold,
        has_valid_input: true,
        use_pilot_yaw: true,
        pilot_yaw_rate_nonzero: false,
        weathervane_enabled: true,
        allows_weathervaning: false,
        weathervane_wants_yaw: false,
        wp_yaw_behavior: WpYawBehaviour::LookAtNextWp,
        circle_nav_enabled: true,
        circle_nav_active: false,
    }
}

#[test]
fn heading_command_keeps_fixed_and_yields_to_the_pilot() {
    let kept = get_heading(&heading_ctx());
    assert_eq!(kept.mode, YawMode::Fixed);
    assert_eq!(kept.yaw_angle_source, YawAngleSource::FixedSlew);
    assert!(kept.yaw_angle_source.need_millis());
    let pilot = get_heading(&GetHeadingContext { pilot_yaw_rate_nonzero: true, ..heading_ctx() });
    assert_eq!(pilot.mode, YawMode::PilotRate);
    assert_eq!(pilot.last_mode, YawMode::Fixed);
    assert_eq!(pilot.yaw_rate_source, YawRateSource::Pilot);
    let circle = get_heading(&GetHeadingContext { mode: YawMode::Circle, ..heading_ctx() });
    assert_eq!(circle.yaw_angle_source, YawAngleSource::CircleHeld);
}

#[test]
fn commanded_rate_survives_entering_rate() {
    let from_hold = set_rate(YawMode::Hold);
    assert_eq!(from_hold.mode, YawMode::Rate);
    assert_eq!(from_hold.after_entry, StoredRate::Zero);
    assert_eq!(from_hold.stored_rate, StoredRate::Commanded);
    let again = set_rate(YawMode::Rate);
    assert_eq!(again.after_entry, StoredRate::Previous);
    assert_eq!(again.stored_rate, StoredRate::Commanded);
}
