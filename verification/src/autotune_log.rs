//! Which AutoTune log records are written.

use vstd::prelude::*;
use crate::mode_autotune::{
    axis_number, tune_type_number, twitch_is_angle_p, twitch_is_angle_p_spec, AxisType, TuneType,
};

verus! {

/// The PID records written alongside a twitch.
#[derive(Debug, Clone, Copy, PartialEq, Eq, Structural)]
pub struct LogPidsLeftover {
    /// The roll PID record.
    pub write_pidr: bool,
    /// The pitch PID record.
    pub write_pidp: bool,
    /// The yaw PID record.
    pub write_pidy: bool,
}

/// The multicopter writes no frequency-sweep record.
pub fn log_autotune_sweep() -> (r: bool)
    ensures
        !r,
{
    false
}

/// All three PID records are written.
pub fn log_pids() -> (r: LogPidsLeftover)
    ensures
        r.write_pidr && r.write_pidp && r.write_pidy,
{
    LogPidsLeftover { write_pidr: true, write_pidp: true, write_pidy: true }
}

/// How an AutoTune record is laid out for an axis and tune type; the values
/// are the caller's.
#[derive(Debug, Clone, Copy, PartialEq, Eq, Structural)]
pub struct LogAtunLayout {
    /// The axis's number.
    pub axis: u8,
    /// The tune type's number.
    pub tune_step: u8,
    /// The target, minimum and maximum are the angle's (else the rate's).
    pub angle_measurements: bool,
    /// The D column holds the yaw error filter (else rate D).
    pub rd_is_yaw_filter: bool,
}

/// The layout of the record written after each gain update: the angle
/// measurements for the angle-P tune types, the rate ones otherwise; on yaw
/// tuned with the error filter, the filter in the D column.
pub fn log_autotune(axis: AxisType, tune_type: TuneType) -> (r: LogAtunLayout)
    ensures
        r.axis == axis_number(axis),
        r.tune_step == tune_type_number(tune_type),
        r.angle_measurements == twitch_is_angle_p_spec(tune_type),
        r.rd_is_yaw_filter == (axis == AxisType::Yaw),
{
    LogAtunLayout {
        axis: axis.number(),
        tune_step: tune_type.number(),
        angle_measurements: twitch_is_angle_p(tune_type),
        rd_is_yaw_filter: matches!(axis, AxisType::Yaw),
    }
}

} // verus!
