//! When AutoTune holds position: whether the position hold acts this tick,
//! and when it latches the position to hold.
//!
//! The lean and yaw that hold the position are computed by the caller from
//! the horizontal error to the latched start.

use vstd::prelude::*;

verus! {

/// What the position hold decided before any error is computed.
#[derive(Debug, Clone, Copy, PartialEq, Eq, Structural)]
pub struct PosHoldLatch {
    /// The hold acts this tick: it is wanted and the position is good.
    pub active: bool,
    /// A start position is held after this tick.
    pub have_position: bool,
    /// This tick latched the current position as the start, so its error is
    /// zero and no lean is applied on it.
    pub latched_start: bool,
}

/// The latch as a function of what it reads.
pub open spec fn poshold_latch_spec(use_poshold: bool, position_ok: bool, have_position: bool) -> PosHoldLatch {
    let active = use_poshold && position_ok;
    PosHoldLatch {
        active,
        have_position: have_position || active,
        latched_start: active && !have_position,
    }
}

/// The hold acts only when it is wanted and the position estimate is good;
/// the first such tick without a start position latches the current one.
pub fn poshold_latch(use_poshold: bool, position_ok: bool, have_position: bool) -> (r: PosHoldLatch)
    ensures
        r == poshold_latch_spec(use_poshold, position_ok, have_position),
{
    if !use_poshold || !position_ok {
        return PosHoldLatch { active: false, have_position, latched_start: false };
    }
    PosHoldLatch { active: true, have_position: true, latched_start: !have_position }
}

/// The start position is latched once: after any tick that leaves a start
/// position held, no later tick latches again, whatever it reads, so the held
/// position stays put.
pub proof fn lemma_start_latches_once(
    use_poshold: bool,
    position_ok: bool,
    have_position: bool,
    next_use_poshold: bool,
    next_position_ok: bool,
)
    requires
        poshold_latch_spec(use_poshold, position_ok, have_position).have_position,
    ensures
        !poshold_latch_spec(
            next_use_poshold,
            next_position_ok,
            poshold_latch_spec(use_poshold, position_ok, have_position).have_position,
        ).latched_start,
        poshold_latch_spec(
            next_use_poshold,
            next_position_ok,
            poshold_latch_spec(use_poshold, position_ok, have_position).have_position,
        ).have_position,
{
}

} // verus!
