use ap_copter::crash_check::{crash_check, crash_trigger_count, CrashCheck, CrashCheckInputs};
use ap_copter::failsafe::{
    failsafe_gcs_check, failsafe_gcs_on_event, failsafe_option, failsafe_radio_on_event,
    gcs_param_action, radio_param_action, should_disarm_on_failsafe, FailsafeAction,
    FailsafeOption, FsGcsEnable, FsThrEnable, GcsFailsafeActionInputs, GcsFailsafeEdge,
    GcsFailsafeInputs, RadioFailsafeInputs,
};

#[test]
fn parameter_tables() {
    assert_eq!(radio_param_action(2), FailsafeAction::Rtl);
    assert_eq!(gcs_param_action(2), FailsafeAction::Rtl);
    assert_eq!(radio_param_action(3), FailsafeAction::Land);
    assert_eq!(gcs_param_action(5), FailsafeAction::Land);
    assert_eq!(radio_param_action(99), FailsafeAction::Land);
    assert_eq!(gcs_param_action(99), FailsafeAction::Rtl);
    assert_eq!(FsThrEnable::from_param(7), Some(FsThrEnable::BrakeOrLand));
    assert_eq!(FsThrEnable::from_param(8), None);
    assert_eq!(FsGcsEnable::from_param(3), Some(FsGcsEnable::AlwaysSmartrtlOrRtl));
    assert!(!FsGcsEnable::default_param().is_enabled());
    assert_eq!(FsThrEnable::default_param(), FsThrEnable::AlwaysRtl);
    assert!(failsafe_option(0b1000, FailsafeOption::ContinueIfLanding));
    assert!(!failsafe_option(0b1000, FailsafeOption::ReleaseGripper));
}

#[test]
fn gcs_check_is_a_strict_edge() {
    let base = GcsFailsafeInputs {
        enable: 1,
        now_ms: 20_000,
        last_seen_ms: 15_000,
        timeout_ms: 5_000,
        already_gcs: false,
    };
    assert_eq!(failsafe_gcs_check(&base), GcsFailsafeEdge::Hold);
    let late = GcsFailsafeInputs { now_ms: 20_001, ..base };
    assert_eq!(failsafe_gcs_check(&late), GcsFailsafeEdge::Trigger);
    let latched = GcsFailsafeInputs { already_gcs: true, ..late };
    assert_eq!(failsafe_gcs_check(&latched), GcsFailsafeEdge::Hold);
    let back = GcsFailsafeInputs { now_ms: 15_001, already_gcs: true, ..base };
    assert_eq!(failsafe_gcs_check(&back), GcsFailsafeEdge::Recover);
    let never = GcsFailsafeInputs { last_seen_ms: 0, ..late };
    assert_eq!(failsafe_gcs_check(&never), GcsFailsafeEdge::Hold);
    let disabled = GcsFailsafeInputs { enable: 0, ..late };
    assert_eq!(failsafe_gcs_check(&disabled), GcsFailsafeEdge::Hold);
    let wrapped = GcsFailsafeInputs { now_ms: 10, last_seen_ms: u32::MAX - 10, ..base };
    assert_eq!(failsafe_gcs_check(&wrapped), GcsFailsafeEdge::Hold);
    assert_eq!(GcsFailsafeInputs::default().timeout_ms, 5000);
}

#[test]
fn radio_override_ladder() {
    let base = RadioFailsafeInputs::default();
    assert_eq!(failsafe_radio_on_event(&base), FailsafeAction::Rtl);
    let disarm = RadioFailsafeInputs { should_disarm: true, ..base };
    assert_eq!(failsafe_radio_on_event(&disarm), FailsafeAction::NoAction);
    let landing = RadioFailsafeInputs { is_landing: true, battery_requires_land: true, ..base };
    assert_eq!(failsafe_radio_on_event(&landing), FailsafeAction::Land);
    let auto = RadioFailsafeInputs { mode_is_auto: true, fs_options: 1, ..base };
    assert_eq!(failsafe_radio_on_event(&auto), FailsafeAction::NoAction);
    let guided = RadioFailsafeInputs { in_guided_mode: true, fs_options: 4, ..base };
    assert_eq!(failsafe_radio_on_event(&guided), FailsafeAction::NoAction);
}

#[test]
fn gcs_override_ladder() {
    let base = GcsFailsafeActionInputs::default();
    assert_eq!(failsafe_gcs_on_event(&base), FailsafeAction::Rtl);
    let disarmed = GcsFailsafeActionInputs { armed: false, ..base };
    assert_eq!(failsafe_gcs_on_event(&disarmed), FailsafeAction::NoAction);
    let pilot = GcsFailsafeActionInputs { fs_options: 16, ..base };
    assert_eq!(failsafe_gcs_on_event(&pilot), FailsafeAction::NoAction);
    let auto_pilot = GcsFailsafeActionInputs { fs_options: 16, is_autopilot: true, ..base };
    assert_eq!(failsafe_gcs_on_event(&auto_pilot), FailsafeAction::Rtl);
}

#[test]
fn disarm_on_failsafe_by_mode() {
    assert!(should_disarm_on_failsafe(true, 5, false, false, true));
    assert!(should_disarm_on_failsafe(false, 0, true, false, true));
    assert!(!should_disarm_on_failsafe(false, 3, true, true, true));
    assert!(should_disarm_on_failsafe(false, 3, false, true, false));
    assert!(!should_disarm_on_failsafe(false, 5, true, false, true));
}

#[test]
fn crash_counter_resets_and_triggers() {
    assert_eq!(crash_trigger_count(400), 800);
    let inp = CrashCheckInputs::default();
    assert_eq!(crash_check(&inp), CrashCheck::Accumulating { counter: 1 });
    let near = CrashCheckInputs { crash_counter: 799, ..inp };
    let r = crash_check(&near);
    assert_eq!(r, CrashCheck::Disarm { counter: 800 });
    assert!(r.should_disarm());
    assert_eq!(r.counter(), 800);
    let level = CrashCheckInputs { lean_at_or_below_min: true, crash_counter: 500, ..inp };
    assert_eq!(crash_check(&level), CrashCheck::Clear);
    assert_eq!(crash_check(&level).counter(), 0);
    let fast = CrashCheckInputs { speed_at_or_above_max: Some(true), ..inp };
    assert_eq!(crash_check(&fast), CrashCheck::Clear);
    let slow = CrashCheckInputs { speed_at_or_above_max: Some(false), ..inp };
    assert_eq!(crash_check(&slow), crash_check(&inp));
    let forced = CrashCheckInputs { force_flying: true, ..inp };
    assert_eq!(crash_check(&forced), CrashCheck::Clear);
    let forced_landing = CrashCheckInputs { force_flying: true, is_landing: true, ..inp };
    assert_eq!(crash_check(&forced_landing), CrashCheck::Accumulating { counter: 1 });
    let wrap = CrashCheckInputs { crash_counter: u16::MAX, loop_rate_hz: u16::MAX, ..inp };
    assert_eq!(crash_check(&wrap), CrashCheck::Accumulating { counter: 0 });
}
