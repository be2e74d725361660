//! What AutoTune tells the ground station: the status messages, the step
//! names, and the periodic progress announcement.

use vstd::prelude::*;
use crate::mode_autotune::{
    AxisType, Step, TuneType, AUTOTUNE_AXIS_BITMASK_PITCH, AUTOTUNE_AXIS_BITMASK_ROLL,
    AUTOTUNE_AXIS_BITMASK_YAW, AUTOTUNE_AXIS_BITMASK_YAW_D, AUTOTUNE_MESSAGE_FAILED,
    AUTOTUNE_MESSAGE_SAVED_GAINS, AUTOTUNE_MESSAGE_STARTED, AUTOTUNE_MESSAGE_STOPPED,
    AUTOTUNE_MESSAGE_SUCCESS, AUTOTUNE_MESSAGE_TESTING, AUTOTUNE_MESSAGE_TESTING_END,
    AUTOTUNE_SUCCESS_COUNT,
};

verus! {

/// How often progress is announced, ms.
pub const AUTOTUNE_ANNOUNCE_INTERVAL_MS: u32 = 2000;

/// Message severity: critical.
pub const MAV_SEVERITY_CRITICAL: u8 = 2;

/// Message severity: notice.
pub const MAV_SEVERITY_NOTICE: u8 = 5;

/// Message severity: info.
pub const MAV_SEVERITY_INFO: u8 = 6;

/// The percent each successful twitch is worth, in integer arithmetic.
pub const AUTOTUNE_ANNOUNCE_PERCENT_STEP: u8 = 25;

/// The display name of an axis.
pub fn get_axis_name(axis: AxisType) -> (r: &'static str)
    ensures
        r@ == match axis {
            AxisType::Roll => "Roll"@,
            AxisType::Pitch => "Pitch"@,
            AxisType::Yaw => "Yaw(E)"@,
            AxisType::YawD => "Yaw(D)"@,
        },
{
    match axis {
        AxisType::Roll => "Roll",
        AxisType::Pitch => "Pitch",
        AxisType::Yaw => "Yaw(E)",
        AxisType::YawD => "Yaw(D)",
    }
}

/// The display name of a tune type.
pub fn get_tune_type_name(tune_type: TuneType) -> (r: &'static str)
    ensures
        r@ == match tune_type {
            TuneType::RateDUp => "Rate D Up"@,
            TuneType::RateDDown => "Rate D Down"@,
            TuneType::RatePUp => "Rate P Up"@,
            TuneType::RateFfUp => "Rate FF Up"@,
            TuneType::AnglePUp => "Angle P Up"@,
            TuneType::AnglePDown => "Angle P Down"@,
            TuneType::MaxGains => "Find Max Gains"@,
            TuneType::TuneCheck => "Check Tune Frequency Response"@,
            TuneType::TuneComplete => "Tune Complete"@,
        },
{
    match tune_type {
        TuneType::RateDUp => "Rate D Up",
        TuneType::RateDDown => "Rate D Down",
        TuneType::RatePUp => "Rate P Up",
        TuneType::RateFfUp => "Rate FF Up",
        TuneType::AnglePUp => "Angle P Up",
        TuneType::AnglePDown => "Angle P Down",
        TuneType::MaxGains => "Find Max Gains",
        TuneType::TuneCheck => "Check Tune Frequency Response",
        TuneType::TuneComplete => "Tune Complete",
    }
}

/// The progress percent a success count is announced as.
pub open spec fn announce_percent_spec(success_counter: i8) -> u8 {
    if success_counter <= 0 {
        0
    } else if success_counter * 25 > 255 {
        255
    } else {
        (success_counter * 25) as u8
    }
}

/// `success_counter * 25` in saturating integer arithmetic; zero for a
/// non-positive count.
pub fn announce_percent(success_counter: i8) -> (r: u8)
    ensures
        r == announce_percent_spec(success_counter),
{
    if success_counter <= 0 {
        0
    } else {
        let c = success_counter as u8;
        if c > 10 {
            255
        } else {
            c * AUTOTUNE_ANNOUNCE_PERCENT_STEP
        }
    }
}

/// Which status message body.
#[derive(Debug, Clone, Copy, PartialEq, Eq, Structural)]
pub enum UpdateGcsKind {
    /// "AutoTune: Started" (info).
    Started,
    /// "AutoTune: Stopped" (info).
    Stopped,
    /// "AutoTune: Success" (notice).
    Success,
    /// "AutoTune: Failed" (notice).
    Failed,
    /// "Pilot Testing gains for ..." (notice).
    Testing,
    /// "Saved gains for ..." (notice).
    SavedGains,
    /// "AutoTune: original gains restored" (notice).
    TestingEnd,
}

/// A status message to send.
#[derive(Debug, Clone, Copy, PartialEq, Eq, Structural)]
pub struct UpdateGcs {
    /// The message severity.
    pub severity: u8,
    /// Which body.
    pub kind: UpdateGcsKind,
    /// Roll is among the completed axes.
    pub roll: bool,
    /// Pitch is among the completed axes.
    pub pitch: bool,
    /// Yaw is among the completed axes.
    pub yaw: bool,
    /// Yaw-D is among the completed axes.
    pub yaw_d: bool,
}

impl UpdateGcs {
    /// The fixed body of the messages that have one; `None` for the two axis lines.
    pub fn text(self) -> (r: Option<&'static str>)
        ensures
            match self.kind {
                UpdateGcsKind::Started => r.is_some() && r.unwrap()@ == "AutoTune: Started"@,
                UpdateGcsKind::Stopped => r.is_some() && r.unwrap()@ == "AutoTune: Stopped"@,
                UpdateGcsKind::Success => r.is_some() && r.unwrap()@ == "AutoTune: Success"@,
                UpdateGcsKind::Failed => r.is_some() && r.unwrap()@ == "AutoTune: Failed"@,
                UpdateGcsKind::TestingEnd => r.is_some() && r.unwrap()@
                    == "AutoTune: original gains restored"@,
                UpdateGcsKind::Testing | UpdateGcsKind::SavedGains => r.is_none(),
            },
    {
        match self.kind {
            UpdateGcsKind::Started => Some("AutoTune: Started"),
            UpdateGcsKind::Stopped => Some("AutoTune: Stopped"),
            UpdateGcsKind::Success => Some("AutoTune: Success"),
            UpdateGcsKind::Failed => Some("AutoTune: Failed"),
            UpdateGcsKind::TestingEnd => Some("AutoTune: original gains restored"),
            UpdateGcsKind::Testing | UpdateGcsKind::SavedGains => None,
        }
    }

    /// The verb of the axis line: "Saved" or "Pilot Testing".
    pub fn gains_verb(self) -> (r: Option<&'static str>)
        ensures
            match self.kind {
                UpdateGcsKind::SavedGains => r.is_some() && r.unwrap()@ == "Saved"@,
                UpdateGcsKind::Testing => r.is_some() && r.unwrap()@ == "Pilot Testing"@,
                _ => r.is_none(),
            },
    {
        match self.kind {
            UpdateGcsKind::SavedGains => Some("Saved"),
            UpdateGcsKind::Testing => Some("Pilot Testing"),
            _ => None,
        }
    }
}

/// The message kind and severity of a message id, if it is one.
pub open spec fn update_gcs_kind_spec(message_id: u8) -> Option<(u8, UpdateGcsKind)> {
    if message_id == AUTOTUNE_MESSAGE_STARTED {
        Some((MAV_SEVERITY_INFO, UpdateGcsKind::Started))
    } else if message_id == AUTOTUNE_MESSAGE_STOPPED {
        Some((MAV_SEVERITY_INFO, UpdateGcsKind::Stopped))
    } else if message_id == AUTOTUNE_MESSAGE_SUCCESS {
        Some((MAV_SEVERITY_NOTICE, UpdateGcsKind::Success))
    } else if message_id == AUTOTUNE_MESSAGE_FAILED {
        Some((MAV_SEVERITY_NOTICE, UpdateGcsKind::Failed))
    } else if message_id == AUTOTUNE_MESSAGE_TESTING {
        Some((MAV_SEVERITY_NOTICE, UpdateGcsKind::Testing))
    } else if message_id == AUTOTUNE_MESSAGE_SAVED_GAINS {
        Some((MAV_SEVERITY_NOTICE, UpdateGcsKind::SavedGains))
    } else if message_id == AUTOTUNE_MESSAGE_TESTING_END {
        Some((MAV_SEVERITY_NOTICE, UpdateGcsKind::TestingEnd))
    } else {
        None
    }
}

/// The status message for a message id; an unknown id sends nothing.
pub fn update_gcs(message_id: u8, axes_completed: u8) -> (r: Option<UpdateGcs>)
    ensures
        match update_gcs_kind_spec(message_id) {
            Some((severity, kind)) => r == Some(
                UpdateGcs {
                    severity,
                    kind,
                    roll: axes_completed & AUTOTUNE_AXIS_BITMASK_ROLL != 0,
                    pitch: axes_completed & AUTOTUNE_AXIS_BITMASK_PITCH != 0,
                    yaw: axes_completed & AUTOTUNE_AXIS_BITMASK_YAW != 0,
                    yaw_d: axes_completed & AUTOTUNE_AXIS_BITMASK_YAW_D != 0,
                },
            ),
            None => r.is_none(),
        },
        r.is_some() <==> message_id <= 6,
{
    let roll = axes_completed & AUTOTUNE_AXIS_BITMASK_ROLL != 0;
    let pitch = axes_completed & AUTOTUNE_AXIS_BITMASK_PITCH != 0;
    let yaw = axes_completed & AUTOTUNE_AXIS_BITMASK_YAW != 0;
    let yaw_d = axes_completed & AUTOTUNE_AXIS_BITMASK_YAW_D != 0;
    let (severity, kind) = if message_id == AUTOTUNE_MESSAGE_STARTED {
        (MAV_SEVERITY_INFO, UpdateGcsKind::Started)
    } else if message_id == AUTOTUNE_MESSAGE_STOPPED {
        (MAV_SEVERITY_INFO, UpdateGcsKind::Stopped)
    } else if message_id == AUTOTUNE_MESSAGE_SUCCESS {
        (MAV_SEVERITY_NOTICE, UpdateGcsKind::Success)
    } else if message_id == AUTOTUNE_MESSAGE_FAILED {
        (MAV_SEVERITY_NOTICE, UpdateGcsKind::Failed)
    } else if message_id == AUTOTUNE_MESSAGE_TESTING {
        (MAV_SEVERITY_NOTICE, UpdateGcsKind::Testing)
    } else if message_id == AUTOTUNE_MESSAGE_SAVED_GAINS {
        (MAV_SEVERITY_NOTICE, UpdateGcsKind::SavedGains)
    } else if message_id == AUTOTUNE_MESSAGE_TESTING_END {
        (MAV_SEVERITY_NOTICE, UpdateGcsKind::TestingEnd)
    } else {
        return None;
    };
    Some(UpdateGcs { severity, kind, roll, pitch, yaw, yaw_d })
}

/// The piece of the axis line one axis bit contributes: its name (with the
/// trailing space after roll and pitch) when the axis is completed, otherwise
/// nothing.
pub fn testing_axis_piece(bit: u8, axes_completed: u8) -> (r: &'static str)
    ensures
        r@ == (if axes_completed & bit == 0 {
            ""@
        } else if bit == AUTOTUNE_AXIS_BITMASK_ROLL {
            "Roll "@
        } else if bit == AUTOTUNE_AXIS_BITMASK_PITCH {
            "Pitch "@
        } else if bit == AUTOTUNE_AXIS_BITMASK_YAW {
            "Yaw(E)"@
        } else if bit == AUTOTUNE_AXIS_BITMASK_YAW_D {
            "Yaw(D)"@
        } else {
            ""@
        }),
{
    if axes_completed & bit == 0 {
        ""
    } else if bit == AUTOTUNE_AXIS_BITMASK_ROLL {
        "Roll "
    } else if bit == AUTOTUNE_AXIS_BITMASK_PITCH {
        "Pitch "
    } else if bit == AUTOTUNE_AXIS_BITMASK_YAW {
        "Yaw(E)"
    } else if bit == AUTOTUNE_AXIS_BITMASK_YAW_D {
        "Yaw(D)"
    } else {
        ""
    }
}

/// The step description; a pilot override takes precedence.
pub fn send_step_string(pilot_override: bool, step: Step) -> (r: &'static str)
    ensures
        r@ == (if pilot_override {
            "AutoTune: Paused: Pilot Override Active"@
        } else {
            match step {
                Step::WaitingForLevel => "AutoTune: Leveling"@,
                Step::UpdateGains => "AutoTune: Updating Gains"@,
                Step::Abort => "AutoTune: Aborting Test"@,
                Step::ExecutingTest => "AutoTune: Testing"@,
            }
        }),
{
    if pilot_override {
        return "AutoTune: Paused: Pilot Override Active";
    }
    match step {
        Step::WaitingForLevel => "AutoTune: Leveling",
        Step::UpdateGains => "AutoTune: Updating Gains",
        Step::Abort => "AutoTune: Aborting Test",
        Step::ExecutingTest => "AutoTune: Testing",
    }
}

/// What the progress announcement reads.
#[derive(Debug, Clone, Copy, PartialEq, Eq, Structural)]
pub struct GcsAnnounceView {
    /// The time now, ms.
    pub now_ms: u32,
    /// When progress was last announced, ms.
    pub last_announce_ms: u32,
    /// The axis being tuned.
    pub axis: AxisType,
    /// The tune type being run.
    pub tune_type: TuneType,
    /// The success count.
    pub success_counter: i8,
}

impl GcsAnnounceView {
    /// Mid-tune: roll, rate D up, count 0, interval elapsed.
    pub fn typical() -> (r: GcsAnnounceView)
        ensures
            r == (GcsAnnounceView {
                now_ms: 10_000,
                last_announce_ms: 0,
                axis: AxisType::Roll,
                tune_type: TuneType::RateDUp,
                success_counter: 0,
            }),
    {
        GcsAnnounceView {
            now_ms: 10_000,
            last_announce_ms: 0,
            axis: AxisType::Roll,
            tune_type: TuneType::RateDUp,
            success_counter: 0,
        }
    }
}

/// One progress announcement.
#[derive(Debug, Clone, Copy, PartialEq, Eq)]
pub struct GcsAnnounce {
    /// The interval had elapsed, so the message goes out.
    pub sent: bool,
    /// When progress was last announced, after this call.
    pub last_announce_ms: u32,
    /// The message severity (info).
    pub severity: u8,
    /// The axis name.
    pub axis_name: &'static str,
    /// The tune type name.
    pub tune_type_name: &'static str,
    /// The progress percent.
    pub percent: u8,
}

/// The time elapsed from `since` to `now` on a wrapping millisecond clock.
pub open spec fn elapsed_ms(now: u32, since: u32) -> int {
    if now >= since {
        now - since
    } else {
        now - since + 0x1_0000_0000
    }
}

/// The periodic progress announcement: quiet until the interval has elapsed
/// on the wrapping clock.
pub fn do_gcs_announcements(view: &GcsAnnounceView) -> (r: GcsAnnounce)
    ensures
        r.sent == (elapsed_ms(view.now_ms, view.last_announce_ms)
            >= AUTOTUNE_ANNOUNCE_INTERVAL_MS),
        r.last_announce_ms == (if r.sent {
            view.now_ms
        } else {
            view.last_announce_ms
        }),
        r.severity == MAV_SEVERITY_INFO,
        r.axis_name@ == match view.axis {
            AxisType::Roll => "Roll"@,
            AxisType::Pitch => "Pitch"@,
            AxisType::Yaw => "Yaw(E)"@,
            AxisType::YawD => "Yaw(D)"@,
        },
        r.tune_type_name@ == match view.tune_type {
            TuneType::RateDUp => "Rate D Up"@,
            TuneType::RateDDown => "Rate D Down"@,
            TuneType::RatePUp => "Rate P Up"@,
            TuneType::RateFfUp => "Rate FF Up"@,
            TuneType::AnglePUp => "Angle P Up"@,
            TuneType::AnglePDown => "Angle P Down"@,
            TuneType::MaxGains => "Find Max Gains"@,
            TuneType::TuneCheck => "Check Tune Frequency Response"@,
            TuneType::TuneComplete => "Tune Complete"@,
        },
        r.percent == announce_percent_spec(view.success_counter),
{
    let elapsed = view.now_ms.wrapping_sub(view.last_announce_ms);
    let sent = elapsed >= AUTOTUNE_ANNOUNCE_INTERVAL_MS;
    GcsAnnounce {
        sent,
        last_announce_ms: if sent {
            view.now_ms
        } else {
            view.last_announce_ms
        },
        severity: MAV_SEVERITY_INFO,
        axis_name: get_axis_name(view.axis),
        tune_type_name: get_tune_type_name(view.tune_type),
        percent: announce_percent(view.success_counter),
    }
}

/// The multicopter's post-test announcement: it announces nothing.
pub fn do_post_test_gcs_announcements() -> (r: bool)
    ensures
        !r,
{
    false
}

/// How an axis's final gains are reported. The gain values are the caller's.
#[derive(Debug, Clone, Copy)]
pub struct ReportAxisGains {
    /// The axis's name in the report.
    pub axis_string: &'static str,
    /// The rate I gain is derived with the yaw ratio (else roll and pitch's).
    pub yaw_pi_ratio: bool,
    /// The rate D gain is reported (yaw tuned with the error filter reports
    /// zero).
    pub report_rate_d: bool,
}

/// How the final gains of the axis just tuned are reported: under its display
/// name, with its integrator ratio, and with rate D except for yaw tuned with
/// the error filter.
pub fn report_final_gains(axis: AxisType) -> (r: ReportAxisGains)
    ensures
        r.axis_string@ == match axis {
            AxisType::Roll => "Roll"@,
            AxisType::Pitch => "Pitch"@,
            AxisType::Yaw => "Yaw(E)"@,
            AxisType::YawD => "Yaw(D)"@,
        },
        r.yaw_pi_ratio == (axis == AxisType::Yaw || axis == AxisType::YawD),
        r.report_rate_d == (axis != AxisType::Yaw),
{
    ReportAxisGains {
        axis_string: get_axis_name(axis),
        yaw_pi_ratio: matches!(axis, AxisType::Yaw | AxisType::YawD),
        report_rate_d: !matches!(axis, AxisType::Yaw),
    }
}

} // verus!
