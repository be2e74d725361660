//! The shape of a landing descent: whether it is paused, and whether the
//! position controller's limit on downward travel is lifted. The descent speed
//! itself is a real number worked out by the caller.

use vstd::prelude::*;

verus! {

/// What a landing descent does this pass.
#[derive(Debug, Clone, Copy, PartialEq, Eq, Structural)]
pub enum LandDescentPlan {
    /// Paused: zero climb rate, and the descent limit stays in place (a paused
    /// descent is not a landing that has arrived).
    Paused,
    /// Descending.
    Descend {
        /// Whether the limit on downward travel is lifted: only below the
        /// slowdown height or once the vehicle may already be down.
        ignore_descent_limit: bool,
    },
}

/// The descent plan. `below_slowdown_height` says whether the height above
/// ground is under the slowdown height (at least one metre).
pub fn land_descent_plan(
    pause_descent: bool,
    below_slowdown_height: bool,
    land_complete_maybe: bool,
) -> (r: LandDescentPlan)
    ensures
        pause_descent ==> r == LandDescentPlan::Paused,
        !pause_descent ==> r == (LandDescentPlan::Descend {
            ignore_descent_limit: below_slowdown_height || land_complete_maybe,
        }),
{
    if pause_descent {
        return LandDescentPlan::Paused;
    }
    LandDescentPlan::Descend { ignore_descent_limit: below_slowdown_height || land_complete_maybe }
}

} // verus!
