//! Which gain set AutoTune loads onto the attitude controller, which axes
//! each load and the final save write, and what it does with the tuned gains
//! when the vehicle disarms.
//!
//! The gain values themselves belong to the caller; these functions decide
//! which of them are written. A gain counts as present when its rate P is not
//! zero.

use vstd::prelude::*;
use crate::mode_autotune::{
    AxisType, GainType, AUTOTUNE_AXIS_BITMASK_DEFAULT, AUTOTUNE_AXIS_BITMASK_PITCH,
    AUTOTUNE_AXIS_BITMASK_ROLL, AUTOTUNE_AXIS_BITMASK_YAW, AUTOTUNE_AXIS_BITMASK_YAW_D,
    AUTOTUNE_MESSAGE_SAVED_GAINS, AUTOTUNE_MESSAGE_STOPPED, roll_enabled, pitch_enabled,
    yaw_enabled, yaw_d_enabled, roll_enabled_spec, pitch_enabled_spec, yaw_enabled_spec,
    yaw_d_enabled_spec,
};

verus! {

/// Whether the requested gain set is already loaded, so loading it again is
/// skipped.
pub fn load_gains_already(loaded_gains: GainType, gain_type: GainType) -> (r: bool)
    ensures
        r == (loaded_gains == gain_type),
{
    loaded_gains == gain_type
}

/// What the backup seeds on the yaw axis before the tune starts.
#[derive(Debug, Clone, Copy, PartialEq, Eq, Structural)]
pub struct BackupSeeds {
    /// Yaw D was zero with yaw-D enabled, and is seeded with the minimum D.
    pub yaw_rd_seeded: bool,
    /// The yaw error filter was zero with yaw enabled, and is seeded with its
    /// minimum.
    pub yaw_rlpf_seeded: bool,
}

/// The yaw seeds of the gain backup: a zero yaw D is seeded when yaw-D is to
/// be tuned, a zero yaw error filter when yaw is.
pub fn backup_yaw_seeds(axis_bitmask: u8, yaw_rd_zero: bool, yaw_rlpf_zero: bool) -> (r:
    BackupSeeds)
    ensures
        r.yaw_rd_seeded == (yaw_d_enabled_spec(axis_bitmask) && yaw_rd_zero),
        r.yaw_rlpf_seeded == (yaw_enabled_spec(axis_bitmask) && yaw_rlpf_zero),
{
    BackupSeeds {
        yaw_rd_seeded: yaw_d_enabled(axis_bitmask) && yaw_rd_zero,
        yaw_rlpf_seeded: yaw_enabled(axis_bitmask) && yaw_rlpf_zero,
    }
}

/// What the loads and the save read.
#[derive(Debug, Clone, Copy, PartialEq, Eq, Structural)]
pub struct LoadView {
    /// The axes to tune.
    pub axis_bitmask: u8,
    /// The axes whose tune completed.
    pub axes_completed: u8,
    /// The axis being twitched (read by the test load only).
    pub axis: AxisType,
    /// The body-frame feed-forward setting before the tune.
    pub orig_bf_feedforward: bool,
    /// The body-frame feed-forward setting now.
    pub live_bf_feedforward: bool,
    /// The original roll gains are present.
    pub orig_roll_set: bool,
    /// The original pitch gains are present.
    pub orig_pitch_set: bool,
    /// The original yaw gains are present.
    pub orig_yaw_set: bool,
    /// The tuned roll gains are present.
    pub tune_roll_set: bool,
    /// The tuned pitch gains are present.
    pub tune_pitch_set: bool,
    /// The tuned yaw gains are present.
    pub tune_yaw_set: bool,
}

impl LoadView {
    /// The default axes, roll, pitch and yaw completed, every gain present,
    /// feed-forward on.
    pub fn typical() -> (r: LoadView)
        ensures
            r == (LoadView {
                axis_bitmask: AUTOTUNE_AXIS_BITMASK_DEFAULT,
                axes_completed: 7,
                axis: AxisType::Roll,
                orig_bf_feedforward: true,
                live_bf_feedforward: true,
                orig_roll_set: true,
                orig_pitch_set: true,
                orig_yaw_set: true,
                tune_roll_set: true,
                tune_pitch_set: true,
                tune_yaw_set: true,
            }),
    {
        LoadView {
            axis_bitmask: AUTOTUNE_AXIS_BITMASK_DEFAULT,
            axes_completed: 7,
            axis: AxisType::Roll,
            orig_bf_feedforward: true,
            live_bf_feedforward: true,
            orig_roll_set: true,
            orig_pitch_set: true,
            orig_yaw_set: true,
            tune_roll_set: true,
            tune_pitch_set: true,
            tune_yaw_set: true,
        }
    }
}

/// What a load writes onto the attitude controller.
#[derive(Debug, Clone, Copy, PartialEq, Eq, Structural)]
pub struct LoadedGains {
    /// The square-root controller is used.
    pub use_sqrt_controller: bool,
    /// The body-frame feed-forward setting, when written.
    pub bf_feedforward: Option<bool>,
    /// Roll acceleration limit forced to zero (feed-forward was off).
    pub accel_roll_forced_zero: bool,
    /// Pitch acceleration limit forced to zero (feed-forward was off).
    pub accel_pitch_forced_zero: bool,
    /// The roll gains are written.
    pub roll: bool,
    /// The pitch gains are written.
    pub pitch: bool,
    /// The yaw gains are written.
    pub yaw: bool,
    /// With the yaw gains, yaw D is written.
    pub yaw_rd_written: bool,
    /// With the yaw gains, the yaw error filter is written.
    pub yaw_filter_written: bool,
}

/// A load request's outcome.
#[derive(Debug, Clone, Copy, PartialEq, Eq, Structural)]
pub struct LoadGains {
    /// The requested set was already loaded; nothing was written.
    pub skipped: bool,
    /// The requested set.
    pub gain_type: GainType,
    /// What was written, unless skipped.
    pub loaded: Option<LoadedGains>,
}

/// What the final save writes.
#[derive(Debug, Clone, Copy, PartialEq, Eq, Structural)]
pub struct SaveTuning {
    /// No axis completed: nothing saved.
    pub skipped: bool,
    /// Body-frame feed-forward saved on, because it was off.
    pub bf_feedforward_saved: bool,
    /// Roll and pitch acceleration limits saved as zero, because feed-forward
    /// was off.
    pub accel_rp_saved_zero: bool,
    /// The roll gains are saved (and become the original gains).
    pub roll: bool,
    /// The pitch gains are saved.
    pub pitch: bool,
    /// The yaw gains are saved.
    pub yaw: bool,
    /// With the yaw gains, yaw D is saved.
    pub yaw_rd_written: bool,
    /// With the yaw gains, the yaw error filter is saved.
    pub yaw_filter_written: bool,
    /// The message sent, unless skipped.
    pub gcs_message: Option<u8>,
    /// The tuner is reset after the save.
    pub reset: bool,
}

/// Whether the tune of an axis completed.
pub open spec fn completed(axes_completed: u8, bit: u8) -> bool {
    axes_completed & bit != 0
}

/// The yaw axis is done: yaw completed with yaw enabled, or yaw-D completed
/// with yaw-D enabled.
pub open spec fn yaw_done(v: LoadView) -> bool {
    (completed(v.axes_completed, AUTOTUNE_AXIS_BITMASK_YAW) && yaw_enabled_spec(v.axis_bitmask))
        || (completed(v.axes_completed, AUTOTUNE_AXIS_BITMASK_YAW_D) && yaw_d_enabled_spec(
        v.axis_bitmask,
    ))
}

/// Roll's tuned gains are in hand: roll completed, enabled, and present.
pub open spec fn roll_tuned(v: LoadView) -> bool {
    completed(v.axes_completed, AUTOTUNE_AXIS_BITMASK_ROLL) && roll_enabled_spec(v.axis_bitmask)
        && v.tune_roll_set
}

/// Pitch's tuned gains are in hand.
pub open spec fn pitch_tuned(v: LoadView) -> bool {
    completed(v.axes_completed, AUTOTUNE_AXIS_BITMASK_PITCH) && pitch_enabled_spec(v.axis_bitmask)
        && v.tune_pitch_set
}

/// Yaw's tuned gains are in hand.
pub open spec fn yaw_tuned(v: LoadView) -> bool {
    yaw_done(v) && v.tune_yaw_set
}

/// Either yaw axis is to be tuned.
pub open spec fn any_yaw_enabled(m: u8) -> bool {
    yaw_enabled_spec(m) || yaw_d_enabled_spec(m)
}

/// The original gains: every enabled axis whose original gains are present,
/// with the original feed-forward setting.
pub open spec fn load_orig_gains_spec(v: LoadView) -> LoadedGains {
    LoadedGains {
        use_sqrt_controller: true,
        bf_feedforward: Some(v.orig_bf_feedforward),
        accel_roll_forced_zero: false,
        accel_pitch_forced_zero: false,
        roll: roll_enabled_spec(v.axis_bitmask) && v.orig_roll_set,
        pitch: pitch_enabled_spec(v.axis_bitmask) && v.orig_pitch_set,
        yaw: any_yaw_enabled(v.axis_bitmask) && v.orig_yaw_set,
        yaw_rd_written: any_yaw_enabled(v.axis_bitmask) && v.orig_yaw_set,
        yaw_filter_written: any_yaw_enabled(v.axis_bitmask) && v.orig_yaw_set,
    }
}

/// The tuned gains: every axis whose tuned gains are in hand; feed-forward is
/// switched on, with zero roll and pitch acceleration limits, if it was off.
/// On yaw, D is written only when yaw-D is tuned and the error filter only
/// when yaw is.
pub open spec fn load_tuned_gains_spec(v: LoadView) -> LoadedGains {
    LoadedGains {
        use_sqrt_controller: true,
        bf_feedforward: if !v.live_bf_feedforward {
            Some(true)
        } else {
            None
        },
        accel_roll_forced_zero: !v.live_bf_feedforward,
        accel_pitch_forced_zero: !v.live_bf_feedforward,
        roll: roll_tuned(v),
        pitch: pitch_tuned(v),
        yaw: yaw_tuned(v),
        yaw_rd_written: yaw_tuned(v) && yaw_d_enabled_spec(v.axis_bitmask),
        yaw_filter_written: yaw_tuned(v) && yaw_enabled_spec(v.axis_bitmask),
    }
}

/// The gains between twitches: every enabled axis, feed-forward on.
pub open spec fn load_intra_test_gains_spec(v: LoadView) -> LoadedGains {
    LoadedGains {
        use_sqrt_controller: true,
        bf_feedforward: Some(true),
        accel_roll_forced_zero: false,
        accel_pitch_forced_zero: false,
        roll: roll_enabled_spec(v.axis_bitmask),
        pitch: pitch_enabled_spec(v.axis_bitmask),
        yaw: any_yaw_enabled(v.axis_bitmask),
        yaw_rd_written: any_yaw_enabled(v.axis_bitmask),
        yaw_filter_written: any_yaw_enabled(v.axis_bitmask),
    }
}

/// The gains for a twitch: the axis under test only, without the square-root
/// controller. On yaw, D is written (zero unless yaw-D is under test) and the
/// error filter only when yaw (not yaw-D) is under test.
pub open spec fn load_test_gains_spec(v: LoadView) -> LoadedGains {
    LoadedGains {
        use_sqrt_controller: false,
        bf_feedforward: None,
        accel_roll_forced_zero: false,
        accel_pitch_forced_zero: false,
        roll: v.axis == AxisType::Roll,
        pitch: v.axis == AxisType::Pitch,
        yaw: v.axis == AxisType::Yaw || v.axis == AxisType::YawD,
        yaw_rd_written: v.axis == AxisType::Yaw || v.axis == AxisType::YawD,
        yaw_filter_written: v.axis == AxisType::Yaw,
    }
}

/// A load request: nothing when the set is already loaded, else that set.
pub open spec fn load_gains_spec(loaded_gains: GainType, gain_type: GainType, v: LoadView) -> LoadGains {
    if loaded_gains == gain_type {
        LoadGains { skipped: true, gain_type, loaded: None }
    } else {
        LoadGains {
            skipped: false,
            gain_type,
            loaded: Some(
                match gain_type {
                    GainType::Original => load_orig_gains_spec(v),
                    GainType::IntraTest => load_intra_test_gains_spec(v),
                    GainType::Test => load_test_gains_spec(v),
                    GainType::Tuned => load_tuned_gains_spec(v),
                },
            ),
        }
    }
}

/// The final save: nothing when no axis completed; otherwise the tuned gains
/// in hand, feed-forward saved on if it was off, the saved message, and a
/// reset.
pub open spec fn save_tuning_gains_spec(v: LoadView) -> SaveTuning {
    if v.axes_completed == 0 {
        SaveTuning {
            skipped: true,
            bf_feedforward_saved: false,
            accel_rp_saved_zero: false,
            roll: false,
            pitch: false,
            yaw: false,
            yaw_rd_written: false,
            yaw_filter_written: false,
            gcs_message: None,
            reset: false,
        }
    } else {
        SaveTuning {
            skipped: false,
            bf_feedforward_saved: !v.live_bf_feedforward,
            accel_rp_saved_zero: !v.live_bf_feedforward,
            roll: roll_tuned(v),
            pitch: pitch_tuned(v),
            yaw: yaw_tuned(v),
            yaw_rd_written: yaw_tuned(v) && yaw_d_enabled_spec(v.axis_bitmask),
            yaw_filter_written: yaw_tuned(v) && yaw_enabled_spec(v.axis_bitmask),
            gcs_message: Some(AUTOTUNE_MESSAGE_SAVED_GAINS),
            reset: true,
        }
    }
}

fn completed_axis(axes_completed: u8, bit: u8) -> (r: bool)
    ensures
        r == completed(axes_completed, bit),
{
    axes_completed & bit != 0
}

fn yaw_is_done(v: &LoadView) -> (r: bool)
    ensures
        r == yaw_done(*v),
{
    (completed_axis(v.axes_completed, AUTOTUNE_AXIS_BITMASK_YAW) && yaw_enabled(v.axis_bitmask))
        || (completed_axis(v.axes_completed, AUTOTUNE_AXIS_BITMASK_YAW_D) && yaw_d_enabled(
        v.axis_bitmask,
    ))
}

/// Loads the original gains onto every enabled axis that has them.
pub fn load_orig_gains(view: &LoadView) -> (r: LoadedGains)
    ensures
        r == load_orig_gains_spec(*view),
{
    LoadedGains {
        use_sqrt_controller: true,
        bf_feedforward: Some(view.orig_bf_feedforward),
        accel_roll_forced_zero: false,
        accel_pitch_forced_zero: false,
        roll: roll_enabled(view.axis_bitmask) && view.orig_roll_set,
        pitch: pitch_enabled(view.axis_bitmask) && view.orig_pitch_set,
        yaw: (yaw_enabled(view.axis_bitmask) || yaw_d_enabled(view.axis_bitmask))
            && view.orig_yaw_set,
        yaw_rd_written: (yaw_enabled(view.axis_bitmask) || yaw_d_enabled(view.axis_bitmask))
            && view.orig_yaw_set,
        yaw_filter_written: (yaw_enabled(view.axis_bitmask) || yaw_d_enabled(view.axis_bitmask))
            && view.orig_yaw_set,
    }
}

/// Loads the tuned gains onto every completed, enabled axis that has them.
pub fn load_tuned_gains(view: &LoadView) -> (r: LoadedGains)
    ensures
        r == load_tuned_gains_spec(*view),
{
    let ff_off = !view.live_bf_feedforward;
    LoadedGains {
        use_sqrt_controller: true,
        bf_feedforward: if ff_off {
            Some(true)
        } else {
            None
        },
        accel_roll_forced_zero: ff_off,
        accel_pitch_forced_zero: ff_off,
        roll: completed_axis(view.axes_completed, AUTOTUNE_AXIS_BITMASK_ROLL) && roll_enabled(
            view.axis_bitmask,
        ) && view.tune_roll_set,
        pitch: completed_axis(view.axes_completed, AUTOTUNE_AXIS_BITMASK_PITCH) && pitch_enabled(
            view.axis_bitmask,
        ) && view.tune_pitch_set,
        yaw: yaw_is_done(view) && view.tune_yaw_set,
        yaw_rd_written: yaw_is_done(view) && view.tune_yaw_set && yaw_d_enabled(view.axis_bitmask),
        yaw_filter_written: yaw_is_done(view) && view.tune_yaw_set && yaw_enabled(view.axis_bitmask),
    }
}

/// Loads the between-twitch gains onto every enabled axis.
pub fn load_intra_test_gains(view: &LoadView) -> (r: LoadedGains)
    ensures
        r == load_intra_test_gains_spec(*view),
{
    LoadedGains {
        use_sqrt_controller: true,
        bf_feedforward: Some(true),
        accel_roll_forced_zero: false,
        accel_pitch_forced_zero: false,
        roll: roll_enabled(view.axis_bitmask),
        pitch: pitch_enabled(view.axis_bitmask),
        yaw: yaw_enabled(view.axis_bitmask) || yaw_d_enabled(view.axis_bitmask),
        yaw_rd_written: yaw_enabled(view.axis_bitmask) || yaw_d_enabled(view.axis_bitmask),
        yaw_filter_written: yaw_enabled(view.axis_bitmask) || yaw_d_enabled(view.axis_bitmask),
    }
}

/// Loads the twitch gains onto the axis under test.
pub fn load_test_gains(view: &LoadView) -> (r: LoadedGains)
    ensures
        r == load_test_gains_spec(*view),
{
    let skip = LoadedGains {
        use_sqrt_controller: false,
        bf_feedforward: None,
        accel_roll_forced_zero: false,
        accel_pitch_forced_zero: false,
        roll: false,
        pitch: false,
        yaw: false,
        yaw_rd_written: false,
        yaw_filter_written: false,
    };
    match view.axis {
        AxisType::Roll => LoadedGains { roll: true, ..skip },
        AxisType::Pitch => LoadedGains { pitch: true, ..skip },
        AxisType::Yaw => LoadedGains {
            yaw: true,
            yaw_rd_written: true,
            yaw_filter_written: true,
            ..skip
        },
        AxisType::YawD => LoadedGains { yaw: true, yaw_rd_written: true, ..skip },
    }
}

/// Loads a gain set, unless it is the one already loaded.
pub fn load_gains(loaded_gains: GainType, gain_type: GainType, view: &LoadView) -> (r: LoadGains)
    ensures
        r == load_gains_spec(loaded_gains, gain_type, *view),
{
    if load_gains_already(loaded_gains, gain_type) {
        return LoadGains { skipped: true, gain_type, loaded: None };
    }
    let loaded = match gain_type {
        GainType::Original => load_orig_gains(view),
        GainType::IntraTest => load_intra_test_gains(view),
        GainType::Test => load_test_gains(view),
        GainType::Tuned => load_tuned_gains(view),
    };
    LoadGains { skipped: false, gain_type, loaded: Some(loaded) }
}

/// Saves the tuned gains of every completed axis; with no axis completed it
/// saves nothing.
pub fn save_tuning_gains(view: &LoadView) -> (r: SaveTuning)
    ensures
        r == save_tuning_gains_spec(*view),
{
    if view.axes_completed == 0 {
        return SaveTuning {
            skipped: true,
            bf_feedforward_saved: false,
            accel_rp_saved_zero: false,
            roll: false,
            pitch: false,
            yaw: false,
            yaw_rd_written: false,
            yaw_filter_written: false,
            gcs_message: None,
            reset: false,
        };
    }
    let tuned = load_tuned_gains(view);
    SaveTuning {
        skipped: false,
        bf_feedforward_saved: !view.live_bf_feedforward,
        accel_rp_saved_zero: !view.live_bf_feedforward,
        roll: tuned.roll,
        pitch: tuned.pitch,
        yaw: tuned.yaw,
        yaw_rd_written: tuned.yaw_rd_written,
        yaw_filter_written: tuned.yaw_filter_written,
        gcs_message: Some(AUTOTUNE_MESSAGE_SAVED_GAINS),
        reset: true,
    }
}

/// What happens to the tuned gains on disarm.
#[derive(Debug, Clone, Copy, PartialEq, Eq, Structural)]
pub enum DisarmAction {
    /// Save the tuned gains.
    Save,
    /// Discard them and reset the tuner.
    Reset,
}

/// The disarm decision: save when the tune completed without the testing
/// switch ever being used (disarmed in AutoTune), or when the testing switch
/// was used and the tuned gains are the ones loaded.
pub fn autotune_disarmed(in_autotune_mode: bool, testing_switch_used: bool, loaded_gains: GainType) -> (r:
    DisarmAction)
    ensures
        r == (if (testing_switch_used && loaded_gains == GainType::Tuned) || (!testing_switch_used
            && in_autotune_mode) {
            DisarmAction::Save
        } else {
            DisarmAction::Reset
        }),
{
    let testing_tuned = testing_switch_used && loaded_gains == GainType::Tuned;
    let tune_complete_no_testing = !testing_switch_used && in_autotune_mode;
    if tune_complete_no_testing || testing_tuned {
        DisarmAction::Save
    } else {
        DisarmAction::Reset
    }
}

/// What stopping the tune does.
#[derive(Debug, Clone, Copy, PartialEq, Eq, Structural)]
pub struct AutoTuneStop {
    /// The original gains are requested.
    pub load: LoadGains,
    /// The stopped message.
    pub gcs_message: u8,
}

/// Stops the tune: the original gains are requested and the stop announced.
pub fn autotune_stop(loaded_gains: GainType, view: &LoadView) -> (r: AutoTuneStop)
    ensures
        r == (AutoTuneStop {
            load: load_gains_spec(loaded_gains, GainType::Original, *view),
            gcs_message: AUTOTUNE_MESSAGE_STOPPED,
        }),
{
    AutoTuneStop {
        load: load_gains(loaded_gains, GainType::Original, view),
        gcs_message: AUTOTUNE_MESSAGE_STOPPED,
    }
}

/// Asking for the gain set already loaded writes nothing, whichever set it is.
pub proof fn lemma_reload_writes_nothing(gain_type: GainType, v: LoadView)
    ensures
        load_gains_spec(gain_type, gain_type, v).skipped,
        load_gains_spec(gain_type, gain_type, v).loaded is None,
{
}

/// Tuned gains are never loaded or saved for an axis whose tune has not
/// completed, and the save and the tuned load write the same axes.
pub proof fn lemma_only_completed_axes_are_saved(v: LoadView)
    ensures
        save_tuning_gains_spec(v).roll ==> completed(v.axes_completed, AUTOTUNE_AXIS_BITMASK_ROLL),
        save_tuning_gains_spec(v).pitch ==> completed(
            v.axes_completed,
            AUTOTUNE_AXIS_BITMASK_PITCH,
        ),
        save_tuning_gains_spec(v).yaw ==> completed(v.axes_completed, AUTOTUNE_AXIS_BITMASK_YAW)
            || completed(v.axes_completed, AUTOTUNE_AXIS_BITMASK_YAW_D),
        v.axes_completed != 0 ==> save_tuning_gains_spec(v).roll == load_tuned_gains_spec(v).roll
            && save_tuning_gains_spec(v).pitch == load_tuned_gains_spec(v).pitch
            && save_tuning_gains_spec(v).yaw == load_tuned_gains_spec(v).yaw,
        v.axes_completed == 0 ==> !load_tuned_gains_spec(v).roll && !load_tuned_gains_spec(v).pitch
            && !load_tuned_gains_spec(v).yaw,
{
    let m = v.axes_completed;
    assert(m == 0 ==> m & AUTOTUNE_AXIS_BITMASK_ROLL == 0 && m & AUTOTUNE_AXIS_BITMASK_PITCH == 0
        && m & AUTOTUNE_AXIS_BITMASK_YAW == 0 && m & AUTOTUNE_AXIS_BITMASK_YAW_D == 0)
        by (bit_vector);
}

/// A twitch's gains touch the axis under test and no other.
pub proof fn lemma_test_gains_touch_one_axis(v: LoadView)
    ensures
        ({
            let l = load_test_gains_spec(v);
            &&& (l.roll as int) + (l.pitch as int) + (l.yaw as int) == 1
            &&& l.roll == (v.axis == AxisType::Roll)
            &&& !l.use_sqrt_controller
        }),
{
}

/// Stopping restores the original gains, unless they are already loaded, and
/// always announces the stop.
pub proof fn lemma_stop_restores_original(loaded_gains: GainType, v: LoadView)
    ensures
        ({
            let s = AutoTuneStop {
                load: load_gains_spec(loaded_gains, GainType::Original, v),
                gcs_message: AUTOTUNE_MESSAGE_STOPPED,
            };
            &&& s.load.gain_type == GainType::Original
            &&& s.load.skipped == (loaded_gains == GainType::Original)
            &&& !s.load.skipped ==> s.load.loaded == Some(load_orig_gains_spec(v))
        }),
{
}

} // verus!
