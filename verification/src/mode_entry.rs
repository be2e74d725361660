//! Whether a flight-mode change is allowed.
//!
//! A ladder of vetoes followed by a commit (which the caller performs). Every
//! veto refuses, but each sends the pilot a different message, so the order
//! of the rungs is the content: the first veto that applies is the one
//! reported.

use vstd::prelude::*;

verus! {

/// Why a mode change was refused.
#[derive(Debug, Clone, Copy, PartialEq, Eq, Structural)]
pub enum ModeEntryVeto {
    /// The ground station may not select this mode.
    GcsEntryDisabled,
    /// No mode has this number.
    NoSuchMode,
    /// "Throttle too high".
    ThrottleTooHigh,
    /// "Requires position".
    RequiresPosition,
    /// "Need alt estimate".
    NeedAltEstimate,
    /// "In fence recovery".
    InFenceRecovery,
    /// "In RC failsafe".
    InRcFailsafe,
    /// The mode's own setup refused.
    InitFailed,
}

/// What a mode-change request came to.
#[derive(Debug, Clone, Copy, PartialEq, Eq, Structural)]
pub enum ModeEntry {
    /// Already in the mode: success without any check.
    AlreadyInMode,
    /// Auto RTL, which the mission logic decides.
    DelegatedToAutoRtl,
    /// Every check passed; the caller commits the change.
    Entered,
    /// Refused, with the reason the pilot is told.
    Refused(ModeEntryVeto),
}

/// The fence conditions that can block a mode change.
#[derive(Debug, Clone, Copy, PartialEq, Eq, Structural)]
pub struct FenceState {
    /// Whether the fence is enabled.
    pub enabled: bool,
    /// Whether the fence is set to block mode changes.
    pub disable_mode_change: bool,
    /// Whether the fence is breached.
    pub breached: bool,
    /// Whether the current mode was entered because of the breach.
    pub entered_for_breach: bool,
}

/// Everything the ladder reads.
#[derive(Debug, Clone, Copy, PartialEq, Eq, Structural)]
pub struct ModeEntryRequest {
    /// The requested mode is the one running.
    pub target_is_current: bool,
    /// The request is Auto RTL.
    pub target_is_auto_rtl: bool,
    /// The request came from the ground station.
    pub reason_is_gcs_command: bool,
    /// Whether the ground station may select this mode.
    pub gcs_entry_enabled: bool,
    /// Whether a mode has this number.
    pub mode_exists: bool,
    /// Whether the motors are armed.
    pub armed: bool,
    /// Whether the vehicle has landed.
    pub land_complete: bool,
    /// Whether the requested mode flies on the pilot's throttle.
    pub new_has_manual_throttle: bool,
    /// Whether the requested mode is Drift (counted as manual throttle here).
    pub new_is_drift: bool,
    /// Whether the running mode flies on the pilot's throttle.
    pub current_has_manual_throttle: bool,
    /// Whether the requested mode would read the throttle stick as above the
    /// throttle that cannot lift off.
    pub pilot_throttle_above_non_takeoff: bool,
    /// Whether the requested mode needs a position estimate.
    pub new_requires_position: bool,
    /// Whether the position estimate is good.
    pub position_ok: bool,
    /// Whether the altitude estimate is good.
    pub ekf_alt_ok: bool,
    /// The fence.
    pub fence: FenceState,
    /// Whether the radio failsafe is active.
    pub in_rc_failsafe: bool,
    /// Whether the requested mode may be entered during a radio failsafe.
    pub new_allows_entry_in_rc_failsafe: bool,
    /// What the requested mode's setup returned.
    pub init_ok: bool,
}

/// The ladder. Already in the mode: success. Then, in order: the ground-station
/// block, Auto RTL, an unknown mode; then, only when armed, a raised throttle
/// on the ground into a manual-throttle mode, a missing position, a missing
/// altitude estimate when leaving manual throttle, and a fence recovery in the
/// air; then, armed or not, the radio failsafe and the mode's own setup.
pub open spec fn mode_entry_outcome(q: ModeEntryRequest) -> ModeEntry {
    let checks = q.armed;
    if q.target_is_current {
        ModeEntry::AlreadyInMode
    } else if q.reason_is_gcs_command && !q.gcs_entry_enabled {
        ModeEntry::Refused(ModeEntryVeto::GcsEntryDisabled)
    } else if q.target_is_auto_rtl {
        ModeEntry::DelegatedToAutoRtl
    } else if !q.mode_exists {
        ModeEntry::Refused(ModeEntryVeto::NoSuchMode)
    } else if checks && q.land_complete && (q.new_has_manual_throttle || q.new_is_drift)
        && !q.current_has_manual_throttle && q.pilot_throttle_above_non_takeoff {
        ModeEntry::Refused(ModeEntryVeto::ThrottleTooHigh)
    } else if checks && q.new_requires_position && !q.position_ok {
        ModeEntry::Refused(ModeEntryVeto::RequiresPosition)
    } else if checks && !q.ekf_alt_ok && q.current_has_manual_throttle
        && !q.new_has_manual_throttle {
        ModeEntry::Refused(ModeEntryVeto::NeedAltEstimate)
    } else if checks && q.fence.enabled && q.fence.disable_mode_change && q.fence.breached
        && q.fence.entered_for_breach && !q.land_complete {
        ModeEntry::Refused(ModeEntryVeto::InFenceRecovery)
    } else if q.in_rc_failsafe && !q.new_allows_entry_in_rc_failsafe {
        ModeEntry::Refused(ModeEntryVeto::InRcFailsafe)
    } else if !q.init_ok {
        ModeEntry::Refused(ModeEntryVeto::InitFailed)
    } else {
        ModeEntry::Entered
    }
}

/// Runs the ladder.
pub fn mode_entry(request: &ModeEntryRequest) -> (r: ModeEntry)
    ensures
        r == mode_entry_outcome(*request),
{
    if request.target_is_current {
        return ModeEntry::AlreadyInMode;
    }
    if request.reason_is_gcs_command && !request.gcs_entry_enabled {
        return ModeEntry::Refused(ModeEntryVeto::GcsEntryDisabled);
    }
    if request.target_is_auto_rtl {
        return ModeEntry::DelegatedToAutoRtl;
    }
    if !request.mode_exists {
        return ModeEntry::Refused(ModeEntryVeto::NoSuchMode);
    }
    let ignore_checks = !request.armed;
    let user_throttle = request.new_has_manual_throttle || request.new_is_drift;
    if !ignore_checks && request.land_complete && user_throttle
        && !request.current_has_manual_throttle && request.pilot_throttle_above_non_takeoff {
        return ModeEntry::Refused(ModeEntryVeto::ThrottleTooHigh);
    }
    if !ignore_checks && request.new_requires_position && !request.position_ok {
        return ModeEntry::Refused(ModeEntryVeto::RequiresPosition);
    }
    if !ignore_checks && !request.ekf_alt_ok && request.current_has_manual_throttle
        && !request.new_has_manual_throttle {
        return ModeEntry::Refused(ModeEntryVeto::NeedAltEstimate);
    }
    if !ignore_checks && request.fence.enabled && request.fence.disable_mode_change
        && request.fence.breached && request.armed && request.fence.entered_for_breach
        && !request.land_complete {
        return ModeEntry::Refused(ModeEntryVeto::InFenceRecovery);
    }
    if request.in_rc_failsafe && !request.new_allows_entry_in_rc_failsafe {
        return ModeEntry::Refused(ModeEntryVeto::InRcFailsafe);
    }
    if !request.init_ok {
        return ModeEntry::Refused(ModeEntryVeto::InitFailed);
    }
    ModeEntry::Entered
}

/// A disarmed aircraft can be put into any mode that exists: only the
/// ground-station block, the radio failsafe and the mode's own setup can still
/// refuse it.
pub proof fn lemma_disarmed_skips_flight_checks(q: ModeEntryRequest)
    requires
        !q.armed,
    ensures
        mode_entry_outcome(q) matches ModeEntry::Refused(v) ==> (v
            == ModeEntryVeto::GcsEntryDisabled || v == ModeEntryVeto::NoSuchMode || v
            == ModeEntryVeto::InRcFailsafe || v == ModeEntryVeto::InitFailed),
{
}

/// A change is entered only when every check it is subject to passed.
pub proof fn lemma_entered_means_checked(q: ModeEntryRequest)
    requires
        mode_entry_outcome(q) == ModeEntry::Entered,
    ensures
        !q.target_is_current,
        !q.target_is_auto_rtl,
        q.mode_exists,
        q.init_ok,
        q.reason_is_gcs_command ==> q.gcs_entry_enabled,
        q.in_rc_failsafe ==> q.new_allows_entry_in_rc_failsafe,
        q.armed && q.new_requires_position ==> q.position_ok,
{
}

/// Asking for the mode already running always succeeds, whatever else holds.
pub proof fn lemma_current_mode_always_accepted(q: ModeEntryRequest)
    requires
        q.target_is_current,
    ensures
        mode_entry_outcome(q) == ModeEntry::AlreadyInMode,
{
}

} // verus!
