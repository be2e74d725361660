use ap_copter::attitude::{get_pilot_desired_climb_rate_ms, ClimbBand, ClimbRateContext};
use ap_copter::land_detector::{land_complete_maybe, land_trigger_iterations};
use ap_copter::mode_auto::{auto_verify_circle, AutoCircleYaw, AutoSubMode, AutoVerifyCircleView};
use ap_copter::mode_autotune::{autotune_currently_level, level_start_after_slew};

#[test]
fn level_wait_fails_after_three_timeouts_and_slew_restarts_it() {
    assert_eq!(level_start_after_slew(9_000, 1_000, true), 9_000);
    assert_eq!(level_start_after_slew(9_000, 1_000, false), 1_000);
    let late = autotune_currently_level(7_001, 1_000, false);
    assert!(late.failed && !late.level);
    let edge = autotune_currently_level(7_000, 1_000, true);
    assert!(!edge.failed && edge.level);
    let wrapped = autotune_currently_level(100, u32::MAX - 99, true);
    assert!(!wrapped.failed);
}

fn stick() -> ClimbRateContext {
    ClimbRateContext {
        has_valid_input: true,
        toy_mode_compiled: false,
        toy_mode_enabled: true,
        throttle_deadzone: 500,
        below_deadband: false,
        above_deadband: false,
    }
}

#[test]
fn climb_bands_and_deadzone_write_back() {
    let mid = get_pilot_desired_climb_rate_ms(&stick());
    assert_eq!(mid.band, ClimbBand::Deadband);
    assert_eq!(mid.deadzone, 400);
    assert!(mid.deadzone_written && !mid.need_toy_adjust);
    let below = get_pilot_desired_climb_rate_ms(&ClimbRateContext { below_deadband: true, ..stick() });
    assert_eq!(below.band, ClimbBand::Below);
    assert!(below.need_speed_dn && !below.need_speed_up);
    let lost = get_pilot_desired_climb_rate_ms(&ClimbRateContext { has_valid_input: false, ..stick() });
    assert_eq!(lost.band, ClimbBand::Failsafe);
    assert_eq!(lost.deadzone, 500);
    assert!(!lost.deadzone_written && !lost.need_throttle_in);
}

#[test]
fn land_trigger_counts() {
    assert_eq!(land_trigger_iterations(false, 400), 400);
    assert_eq!(land_trigger_iterations(true, 400), 1200);
    assert!(land_complete_maybe(false, 80, 400));
    assert!(!land_complete_maybe(false, 79, 400));
    assert!(land_complete_maybe(true, 0, 400));
}

#[test]
fn circle_starts_at_the_edge_and_completes_on_turns() {
    let edge = AutoVerifyCircleView {
        submode: AutoSubMode::CircleMoveToEdge,
        reached_wp: true,
        auto_yaw_is_roi: false,
        turns_done: true,
        new_circle: true,
    };
    let r = auto_verify_circle(&edge);
    assert!(r.circle_start && !r.complete);
    assert_eq!(r.submode, AutoSubMode::Circle);
    assert_eq!(r.yaw, AutoCircleYaw::Circle);
    let circling = auto_verify_circle(&AutoVerifyCircleView { submode: AutoSubMode::Circle, ..edge });
    assert!(circling.complete && circling.starting_circle_text && circling.last_num_complete_updated);
    let waiting = auto_verify_circle(&AutoVerifyCircleView { reached_wp: false, ..edge });
    assert!(!waiting.circle_start);
    assert_eq!(waiting.submode, AutoSubMode::CircleMoveToEdge);
}
