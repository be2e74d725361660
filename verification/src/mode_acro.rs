//! Acro's air-mode handling: the acro options can latch air mode on entry and
//! clear it on exit, unless an auxiliary switch has taken it over, in which
//! case leaving Acro does not fight the switch. The rate demands themselves
//! are real numbers worked out by the caller.

use vstd::prelude::*;

pub use crate::aux::{AcroTrainer, AirMode};

verus! {

/// Acro option bit: fly the rate loop only.
pub const ACRO_OPTION_RATE_LOOP_ONLY: u8 = 2;

/// Acro option bit: air mode while in Acro.
pub const ACRO_OPTION_AIR_MODE: u8 = 1;

/// Air mode as Acro handles it.
#[derive(Debug, Clone, Copy, PartialEq, Eq, Structural)]
pub struct AcroAirMode {
    /// The vehicle's air mode.
    pub air_mode: AirMode,
    /// Whether an auxiliary switch owns air mode, so leaving Acro must not
    /// reset it.
    pub disable_air_mode_reset: bool,
}

impl AcroAirMode {
    /// The vehicle's starting state: air mode not set, and leaving Acro may
    /// reset it.
    pub fn fresh() -> (r: AcroAirMode)
        ensures
            r == (AcroAirMode { air_mode: AirMode::Unset, disable_air_mode_reset: false }),
    {
        AcroAirMode { air_mode: AirMode::Unset, disable_air_mode_reset: false }
    }
}

/// Entering Acro. Always succeeds; the checks flag is not read. With the
/// air-mode option, air mode is enabled and the switch's claim dropped;
/// without it nothing changes.
pub fn acro_init(ignore_checks: bool, air_mode_option: bool, state: &mut AcroAirMode) -> (r: bool)
    ensures
        r,
        air_mode_option ==> *final(state) == (AcroAirMode {
            air_mode: AirMode::Enabled,
            disable_air_mode_reset: false,
        }),
        !air_mode_option ==> *final(state) == *old(state),
{
    if air_mode_option {
        state.disable_air_mode_reset = false;
        state.air_mode = AirMode::Enabled;
    }
    true
}

/// Leaving Acro. With the air-mode option, air mode is disabled unless an
/// auxiliary switch owns it; the switch's claim is dropped either way.
pub fn acro_exit(air_mode_option: bool, state: &mut AcroAirMode)
    ensures
        final(state).disable_air_mode_reset == false,
        final(state).air_mode == (if !old(state).disable_air_mode_reset && air_mode_option {
            AirMode::Disabled
        } else {
            old(state).air_mode
        }),
{
    if !state.disable_air_mode_reset && air_mode_option {
        state.air_mode = AirMode::Disabled;
    }
    state.disable_air_mode_reset = false;
}

/// An auxiliary switch changed air mode: from now on leaving Acro must not
/// reset it.
pub fn acro_air_mode_aux_changed(state: &mut AcroAirMode)
    ensures
        *final(state) == (AcroAirMode { disable_air_mode_reset: true, ..*old(state) }),
{
    state.disable_air_mode_reset = true;
}

/// Air mode after leaving Acro.
pub open spec fn air_mode_after_exit(air_mode_option: bool, s: AcroAirMode) -> AirMode {
    if !s.disable_air_mode_reset && air_mode_option {
        AirMode::Disabled
    } else {
        s.air_mode
    }
}

/// Once an auxiliary switch has set air mode, leaving Acro keeps what the
/// switch set, whatever the options say; and the next exit is free to reset
/// again.
pub proof fn lemma_switch_owned_air_mode_survives_exit(air_mode_option: bool, s: AcroAirMode)
    ensures
        air_mode_after_exit(air_mode_option, AcroAirMode { disable_air_mode_reset: true, ..s })
            == s.air_mode,
{
}

/// With the option set and no switch involved, entering and then leaving Acro
/// leaves air mode disabled.
pub proof fn lemma_enter_then_exit_disables()
    ensures
        air_mode_after_exit(
            true,
            AcroAirMode { air_mode: AirMode::Enabled, disable_air_mode_reset: false },
        ) == AirMode::Disabled,
{
}

} // verus!
