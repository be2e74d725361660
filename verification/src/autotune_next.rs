//! AutoTune sequencing: which tune type follows which, which axis follows
//! which, and what happens when a tune type has collected enough successes.
//!
//! The gains themselves are real numbers scaled by the caller; what is decided
//! here is the sequence position, the axis, the completed-axes mask, and when
//! the whole tune is finished.

use vstd::prelude::*;
use crate::mode_autotune::{
    pitch_enabled, pitch_enabled_spec, yaw_d_enabled, yaw_d_enabled_spec, yaw_enabled,
    yaw_enabled_spec, AxisType, GainType, TuneMode, TuneType, AUTOTUNE_AXIS_BITMASK_DEFAULT,
    AUTOTUNE_AXIS_BITMASK_PITCH, AUTOTUNE_AXIS_BITMASK_ROLL, AUTOTUNE_AXIS_BITMASK_YAW,
    AUTOTUNE_AXIS_BITMASK_YAW_D, AUTOTUNE_MESSAGE_SUCCESS,
};

verus! {

/// The length of the multicopter tune sequence.
pub const AUTOTUNE_TUNE_SEQ_LEN: usize = 6;

/// The tune type at a position of the multicopter sequence (positions past
/// the end hold the terminator).
pub open spec fn tune_sequence_at(i: int) -> TuneType {
    if i == 0 {
        TuneType::RateDUp
    } else if i == 1 {
        TuneType::RateDDown
    } else if i == 2 {
        TuneType::RatePUp
    } else if i == 3 {
        TuneType::AnglePDown
    } else if i == 4 {
        TuneType::AnglePUp
    } else {
        TuneType::TuneComplete
    }
}

/// The multicopter tune sequence: rate D up, rate D down, rate P up, angle P
/// down, angle P up, complete.
pub fn multi_tune_sequence() -> (r: [TuneType; 6])
    ensures
        forall|i: int| 0 <= i < 6 ==> #[trigger] r@[i] == tune_sequence_at(i),
{
    [
        TuneType::RateDUp,
        TuneType::RateDDown,
        TuneType::RatePUp,
        TuneType::AnglePDown,
        TuneType::AnglePUp,
        TuneType::TuneComplete,
    ]
}

/// The tune type after a step of the sequence.
#[derive(Debug, Clone, Copy, PartialEq, Eq, Structural)]
pub struct NextTuneType {
    /// The tune type.
    pub tune_type: TuneType,
    /// Its position in the sequence.
    pub tune_seq_index: u8,
    /// The sequence was reset to its start.
    pub sequence_reset: bool,
}

/// A step of the sequence as a function of its inputs.
pub open spec fn next_tune_type_spec(curr: TuneType, reset: bool, seq_index: u8) -> NextTuneType {
    if reset {
        NextTuneType { tune_type: TuneType::RateDUp, tune_seq_index: 0, sequence_reset: true }
    } else if curr == TuneType::TuneComplete {
        NextTuneType {
            tune_type: TuneType::TuneComplete,
            tune_seq_index: seq_index,
            sequence_reset: false,
        }
    } else {
        let next_i: int = if seq_index + 1 < 5 {
            seq_index + 1
        } else {
            5
        };
        NextTuneType {
            tune_type: tune_sequence_at(next_i),
            tune_seq_index: next_i as u8,
            sequence_reset: false,
        }
    }
}

/// The next tune type. A reset goes back to the start; the terminator stays
/// put; otherwise the position advances, saturating at the terminator.
pub fn next_tune_type(curr: TuneType, reset: bool, seq_index: u8) -> (r: NextTuneType)
    ensures
        r == next_tune_type_spec(curr, reset, seq_index),
{
    let seq = multi_tune_sequence();
    if reset {
        return NextTuneType { tune_type: seq[0], tune_seq_index: 0, sequence_reset: true };
    }
    if matches!(curr, TuneType::TuneComplete) {
        return NextTuneType {
            tune_type: TuneType::TuneComplete,
            tune_seq_index: seq_index,
            sequence_reset: false,
        };
    }
    let next_i: usize = if (seq_index as usize) + 1 < AUTOTUNE_TUNE_SEQ_LEN - 1 {
        seq_index as usize + 1
    } else {
        AUTOTUNE_TUNE_SEQ_LEN - 1
    };
    NextTuneType { tune_type: seq[next_i], tune_seq_index: next_i as u8, sequence_reset: false }
}

/// Stepping from any position never leaves the sequence: the position stays
/// within it, and the tune type is the one at that position.
pub proof fn lemma_next_tune_type_stays_in_sequence(curr: TuneType, seq_index: u8)
    requires
        seq_index < 6,
        curr == tune_sequence_at(seq_index as int),
    ensures
        next_tune_type_spec(curr, false, seq_index).tune_seq_index < 6,
        next_tune_type_spec(curr, false, seq_index).tune_type == tune_sequence_at(
            next_tune_type_spec(curr, false, seq_index).tune_seq_index as int,
        ),
{
}

/// Five steps from the start of the sequence reach its terminator.
pub proof fn lemma_sequence_reaches_complete()
    ensures
        ({
            let s0 = next_tune_type_spec(TuneType::TuneComplete, true, 0);
            let s1 = next_tune_type_spec(s0.tune_type, false, s0.tune_seq_index);
            let s2 = next_tune_type_spec(s1.tune_type, false, s1.tune_seq_index);
            let s3 = next_tune_type_spec(s2.tune_type, false, s2.tune_seq_index);
            let s4 = next_tune_type_spec(s3.tune_type, false, s3.tune_seq_index);
            let s5 = next_tune_type_spec(s4.tune_type, false, s4.tune_seq_index);
            &&& s0.tune_type == TuneType::RateDUp
            &&& s4.tune_type == TuneType::AnglePUp
            &&& s5.tune_type == TuneType::TuneComplete
        }),
{
}

/// The axis after one finishes.
#[derive(Debug, Clone, Copy, PartialEq, Eq, Structural)]
pub struct NextAxis {
    /// The next axis, or the current one when the tune is complete.
    pub axis: AxisType,
    /// The completed-axes mask, now including the axis just finished.
    pub axes_completed: u8,
    /// No enabled axis follows: the tune is complete.
    pub complete: bool,
}

/// The completed-axes bit of an axis.
pub open spec fn axis_complete_bit_spec(axis: AxisType) -> u8 {
    match axis {
        AxisType::Roll => AUTOTUNE_AXIS_BITMASK_ROLL,
        AxisType::Pitch => AUTOTUNE_AXIS_BITMASK_PITCH,
        AxisType::Yaw => AUTOTUNE_AXIS_BITMASK_YAW,
        AxisType::YawD => AUTOTUNE_AXIS_BITMASK_YAW_D,
    }
}

/// The completed-axes bit of an axis.
pub fn axis_complete_bit(axis: AxisType) -> (r: u8)
    ensures
        r == axis_complete_bit_spec(axis),
{
    match axis {
        AxisType::Roll => AUTOTUNE_AXIS_BITMASK_ROLL,
        AxisType::Pitch => AUTOTUNE_AXIS_BITMASK_PITCH,
        AxisType::Yaw => AUTOTUNE_AXIS_BITMASK_YAW,
        AxisType::YawD => AUTOTUNE_AXIS_BITMASK_YAW_D,
    }
}

/// The enabled axis after `axis`, in the order roll, pitch, yaw, yaw-D.
pub open spec fn following_axis(axis: AxisType, m: u8) -> Option<AxisType> {
    match axis {
        AxisType::Roll => if pitch_enabled_spec(m) {
            Some(AxisType::Pitch)
        } else if yaw_enabled_spec(m) {
            Some(AxisType::Yaw)
        } else if yaw_d_enabled_spec(m) {
            Some(AxisType::YawD)
        } else {
            None
        },
        AxisType::Pitch => if yaw_enabled_spec(m) {
            Some(AxisType::Yaw)
        } else if yaw_d_enabled_spec(m) {
            Some(AxisType::YawD)
        } else {
            None
        },
        AxisType::Yaw => if yaw_d_enabled_spec(m) {
            Some(AxisType::YawD)
        } else {
            None
        },
        AxisType::YawD => None,
    }
}

/// The axis after one finishes: the next enabled one, or completion when none
/// follows. The finished axis is added to the completed mask either way.
pub fn next_axis(axis: AxisType, axis_bitmask: u8, axes_completed: u8) -> (r: NextAxis)
    ensures
        r.axes_completed == axes_completed | axis_complete_bit_spec(axis),
        r.complete == following_axis(axis, axis_bitmask).is_none(),
        r.axis == match following_axis(axis, axis_bitmask) {
            Some(a) => a,
            None => axis,
        },
{
    let completed = axes_completed | axis_complete_bit(axis);
    match axis {
        AxisType::Roll => {
            if pitch_enabled(axis_bitmask) {
                NextAxis { axis: AxisType::Pitch, axes_completed: completed, complete: false }
            } else if yaw_enabled(axis_bitmask) {
                NextAxis { axis: AxisType::Yaw, axes_completed: completed, complete: false }
            } else if yaw_d_enabled(axis_bitmask) {
                NextAxis { axis: AxisType::YawD, axes_completed: completed, complete: false }
            } else {
                NextAxis { axis, axes_completed: completed, complete: true }
            }
        },
        AxisType::Pitch => {
            if yaw_enabled(axis_bitmask) {
                NextAxis { axis: AxisType::Yaw, axes_completed: completed, complete: false }
            } else if yaw_d_enabled(axis_bitmask) {
                NextAxis { axis: AxisType::YawD, axes_completed: completed, complete: false }
            } else {
                NextAxis { axis, axes_completed: completed, complete: true }
            }
        },
        AxisType::Yaw => {
            if yaw_d_enabled(axis_bitmask) {
                NextAxis { axis: AxisType::YawD, axes_completed: completed, complete: false }
            } else {
                NextAxis { axis, axes_completed: completed, complete: true }
            }
        },
        AxisType::YawD => NextAxis { axis, axes_completed: completed, complete: true },
    }
}

/// With the default mask (roll, pitch, yaw), finishing roll moves to pitch,
/// pitch to yaw, and yaw completes the tune with all three axes marked.
pub proof fn lemma_default_axis_order()
    ensures
        following_axis(AxisType::Roll, AUTOTUNE_AXIS_BITMASK_DEFAULT) == Some(AxisType::Pitch),
        following_axis(AxisType::Pitch, AUTOTUNE_AXIS_BITMASK_DEFAULT) == Some(AxisType::Yaw),
        following_axis(AxisType::Yaw, AUTOTUNE_AXIS_BITMASK_DEFAULT).is_none(),
        ((0u8 | axis_complete_bit_spec(AxisType::Roll)) | axis_complete_bit_spec(AxisType::Pitch))
            | axis_complete_bit_spec(AxisType::Yaw) == 7u8,
{
    assert(AUTOTUNE_AXIS_BITMASK_DEFAULT & AUTOTUNE_AXIS_BITMASK_PITCH != 0) by (bit_vector);
    assert(AUTOTUNE_AXIS_BITMASK_DEFAULT & AUTOTUNE_AXIS_BITMASK_YAW != 0) by (bit_vector);
    assert(AUTOTUNE_AXIS_BITMASK_DEFAULT & AUTOTUNE_AXIS_BITMASK_YAW_D == 0) by (bit_vector);
    assert(((0u8 | 1u8) | 2u8) | 4u8 == 7u8) by (bit_vector);
}

/// What the sequencing step reads once a tune type's update has run.
#[derive(Debug, Clone, Copy, PartialEq, Eq, Structural)]
pub struct AdvanceView {
    /// The tune type just updated.
    pub tune_type: TuneType,
    /// The axis being tuned.
    pub axis: AxisType,
    /// The axes to tune.
    pub axis_bitmask: u8,
    /// The completed-axes mask.
    pub axes_completed: u8,
    /// The position in the sequence.
    pub tune_seq_index: u8,
    /// The tune type has collected enough successes.
    pub tune_type_complete: bool,
}

impl AdvanceView {
    /// Roll, rate D up, default mask, the first tune type just completed.
    pub fn typical() -> (r: AdvanceView)
        ensures
            r == (AdvanceView {
                tune_type: TuneType::RateDUp,
                axis: AxisType::Roll,
                axis_bitmask: AUTOTUNE_AXIS_BITMASK_DEFAULT,
                axes_completed: 0,
                tune_seq_index: 0,
                tune_type_complete: true,
            }),
    {
        AdvanceView {
            tune_type: TuneType::RateDUp,
            axis: AxisType::Roll,
            axis_bitmask: AUTOTUNE_AXIS_BITMASK_DEFAULT,
            axes_completed: 0,
            tune_seq_index: 0,
            tune_type_complete: true,
        }
    }
}

/// What the sequencing step decided. The success counter restarts at zero and
/// the step scaler at one on every call.
#[derive(Debug, Clone, Copy, PartialEq, Eq, Structural)]
pub struct Advance {
    /// The success counter after the step.
    pub success_counter: i8,
    /// The tune type after the step.
    pub tune_type: TuneType,
    /// The position in the sequence after the step.
    pub tune_seq_index: u8,
    /// The axis after the step.
    pub axis: AxisType,
    /// The completed-axes mask after the step.
    pub axes_completed: u8,
    /// The gain backoff was applied to the tuned gains (rate P up, angle P up).
    pub backoff_applied: bool,
    /// A helicopter tune type reached the backoff: a flow-of-control error.
    pub flow_of_control: bool,
    /// The axis's final gains were reported.
    pub reported_final_gains: bool,
    /// The tune moved to the next axis.
    pub next_axis: bool,
    /// Every enabled axis is done.
    pub complete: bool,
    /// The tuner's mode after the step.
    pub mode: TuneMode,
    /// The gain set loaded, if any.
    pub loaded_gains: Option<GainType>,
    /// The message sent, if any.
    pub gcs_message: Option<u8>,
    /// The tune is complete.
    pub autotune_complete: bool,
}

/// The sequencing step as a function of its inputs.
pub open spec fn autotune_advance_spec(v: AdvanceView) -> Advance {
    let idle = Advance {
        success_counter: 0,
        tune_type: v.tune_type,
        tune_seq_index: v.tune_seq_index,
        axis: v.axis,
        axes_completed: v.axes_completed,
        backoff_applied: false,
        flow_of_control: false,
        reported_final_gains: false,
        next_axis: false,
        complete: false,
        mode: TuneMode::Tuning,
        loaded_gains: None,
        gcs_message: None,
        autotune_complete: false,
    };
    if !v.tune_type_complete {
        idle
    } else {
        let stepped = next_tune_type_spec(v.tune_type, false, v.tune_seq_index);
        let applied = v.tune_type == TuneType::RatePUp || v.tune_type == TuneType::AnglePUp;
        let flow = v.tune_type == TuneType::RateFfUp || v.tune_type == TuneType::MaxGains
            || v.tune_type == TuneType::TuneCheck;
        if stepped.tune_type != TuneType::TuneComplete {
            Advance {
                tune_type: stepped.tune_type,
                tune_seq_index: stepped.tune_seq_index,
                backoff_applied: applied,
                flow_of_control: flow,
                ..idle
            }
        } else {
            let complete = following_axis(v.axis, v.axis_bitmask).is_none();
            Advance {
                success_counter: 0,
                tune_type: TuneType::RateDUp,
                tune_seq_index: 0,
                axis: match following_axis(v.axis, v.axis_bitmask) {
                    Some(a) => a,
                    None => v.axis,
                },
                axes_completed: v.axes_completed | axis_complete_bit_spec(v.axis),
                backoff_applied: applied,
                flow_of_control: flow,
                reported_final_gains: true,
                next_axis: !complete,
                complete,
                mode: if complete {
                    TuneMode::Finished
                } else {
                    TuneMode::Tuning
                },
                loaded_gains: if complete {
                    Some(GainType::Original)
                } else {
                    None
                },
                gcs_message: if complete {
                    Some(AUTOTUNE_MESSAGE_SUCCESS)
                } else {
                    None
                },
                autotune_complete: complete,
            }
        }
    }
}

/// The sequencing step after a tune type's gain update.
///
/// An incomplete tune type only restarts the success counter. A complete one
/// has its gains backed off and the sequence advanced; reaching the terminator
/// reports the axis's gains, resets the sequence, and moves to the next
/// enabled axis, or finishes the tune (original gains loaded, success
/// announced) when none follows.
pub fn autotune_advance(view: &AdvanceView) -> (r: Advance)
    ensures
        r == autotune_advance_spec(*view),
        r.autotune_complete ==> r.mode == TuneMode::Finished && r.loaded_gains == Some(
            GainType::Original,
        ),
{
    let idle = Advance {
        success_counter: 0,
        tune_type: view.tune_type,
        tune_seq_index: view.tune_seq_index,
        axis: view.axis,
        axes_completed: view.axes_completed,
        backoff_applied: false,
        flow_of_control: false,
        reported_final_gains: false,
        next_axis: false,
        complete: false,
        mode: TuneMode::Tuning,
        loaded_gains: None,
        gcs_message: None,
        autotune_complete: false,
    };
    if !view.tune_type_complete {
        return idle;
    }
    let stepped = next_tune_type(view.tune_type, false, view.tune_seq_index);
    let applied = matches!(view.tune_type, TuneType::RatePUp | TuneType::AnglePUp);
    let flow = matches!(view.tune_type, TuneType::RateFfUp | TuneType::MaxGains | TuneType::TuneCheck);
    if !matches!(stepped.tune_type, TuneType::TuneComplete) {
        return Advance {
            tune_type: stepped.tune_type,
            tune_seq_index: stepped.tune_seq_index,
            backoff_applied: applied,
            flow_of_control: flow,
            ..idle
        };
    }
    let reset = next_tune_type(TuneType::TuneComplete, true, stepped.tune_seq_index);
    let axis = next_axis(view.axis, view.axis_bitmask, view.axes_completed);
    let complete = axis.complete;
    Advance {
        success_counter: 0,
        tune_type: reset.tune_type,
        tune_seq_index: reset.tune_seq_index,
        axis: axis.axis,
        axes_completed: axis.axes_completed,
        backoff_applied: applied,
        flow_of_control: flow,
        reported_final_gains: true,
        next_axis: !complete,
        complete,
        mode: if complete {
            TuneMode::Finished
        } else {
            TuneMode::Tuning
        },
        loaded_gains: if complete {
            Some(GainType::Original)
        } else {
            None
        },
        gcs_message: if complete {
            Some(AUTOTUNE_MESSAGE_SUCCESS)
        } else {
            None
        },
        autotune_complete: complete,
    }
}

/// Finishing the last tune type of the last enabled axis finishes the tune;
/// finishing it on any other axis moves on without finishing.
pub proof fn lemma_advance_finishes_only_on_last_axis(v: AdvanceView)
    requires
        v.tune_type_complete,
        v.tune_type == TuneType::AnglePUp,
        v.tune_seq_index == 4,
    ensures
        autotune_advance_spec(v).autotune_complete == following_axis(v.axis, v.axis_bitmask).is_none(),
        autotune_advance_spec(v).reported_final_gains,
        autotune_advance_spec(v).tune_type == TuneType::RateDUp,
{
}

/// Which tuned gains the back-off scales once a tune type completes. The
/// scale is one less the back-off parameter, clamped by the caller.
#[derive(Debug, Clone, Copy, PartialEq, Eq, Structural)]
pub enum BackoffPlan {
    /// The tune type leaves its gains as tuned.
    Keep,
    /// Rate P up: P is scaled, and D with it except on yaw, whose tuned
    /// quantity is the error filter.
    RateP { scale_d: bool },
    /// Angle P up: angle P is scaled, and by one less the aggressiveness, and
    /// the acceleration limit is set from the twitch's peak, with the roll and
    /// pitch floor and back-off or the yaw ones.
    AngleP { roll_pitch: bool },
    /// A helicopter tune type reached the multicopter back-off.
    FlowOfControl,
}

/// The back-off a completed tune type applies.
pub open spec fn backoff_plan_spec(tune_type: TuneType, axis: AxisType) -> BackoffPlan {
    match tune_type {
        TuneType::RatePUp => BackoffPlan::RateP { scale_d: axis != AxisType::Yaw },
        TuneType::AnglePUp => BackoffPlan::AngleP {
            roll_pitch: axis == AxisType::Roll || axis == AxisType::Pitch,
        },
        TuneType::RateFfUp | TuneType::MaxGains | TuneType::TuneCheck => BackoffPlan::FlowOfControl,
        _ => BackoffPlan::Keep,
    }
}

/// Which gains the back-off of a completed tune type scales.
pub fn set_tuning_gains_with_backoff(tune_type: TuneType, axis: AxisType) -> (r: BackoffPlan)
    ensures
        r == backoff_plan_spec(tune_type, axis),
{
    match tune_type {
        TuneType::RatePUp => BackoffPlan::RateP { scale_d: !matches!(axis, AxisType::Yaw) },
        TuneType::AnglePUp => BackoffPlan::AngleP {
            roll_pitch: matches!(axis, AxisType::Roll | AxisType::Pitch),
        },
        TuneType::RateFfUp | TuneType::MaxGains | TuneType::TuneCheck => BackoffPlan::FlowOfControl,
        TuneType::RateDUp | TuneType::RateDDown | TuneType::AnglePDown | TuneType::TuneComplete =>
            BackoffPlan::Keep,
    }
}

/// The sequencing step reports a back-off exactly when the completed tune
/// type's back-off scales a gain, and a flow-of-control error exactly when
/// the back-off does.
pub proof fn lemma_advance_reports_the_backoff(v: AdvanceView)
    requires
        v.tune_type_complete,
    ensures
        autotune_advance_spec(v).backoff_applied == (backoff_plan_spec(v.tune_type, v.axis) is RateP
            || backoff_plan_spec(v.tune_type, v.axis) is AngleP),
        autotune_advance_spec(v).flow_of_control == (backoff_plan_spec(v.tune_type, v.axis)
            is FlowOfControl),
{
}

} // verus!
