//! Vehicle-level decisions of a multicopter flight stack.
#![allow(unused_imports)]

use vstd::prelude::*;

pub mod spool;
pub mod alt_hold;
pub mod arming;
pub mod attitude;
pub mod auto_yaw;
pub mod autotune_gcs;
pub mod autotune_load_save;
pub mod autotune_log;
pub mod autotune_next;
pub mod autotune_update_gains;
pub mod mode_autotune;
pub mod mode_autotune_run;
pub mod autotune_twitch;
pub mod autotune_poshold;
pub mod aux;
pub mod failsafe;
pub mod crash_check;
pub mod ground;
pub mod land_detector;
pub mod land_horizontal;
pub mod altitude;
pub mod land;
pub mod land_precland;
pub mod mode_entry;
pub mod mode_brake;
pub mod mode_acro;
pub mod mode_althold;
pub mod mode_drift;
pub mod mode_auto;

verus! {

} // verus!
