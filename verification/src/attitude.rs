//! Copter-level attitude helpers: the throttle deadzone parameter, the pilot
//! climb-rate bands, hover-throttle learning and the rate-controller tick.
//!
//! Hover learning reads a handful of real-valued measurements; the comparisons
//! it makes on them (is the vertical demand zero, is the aircraft in a level,
//! slow hover) arrive here already made. What is decided here is which of the
//! skip reasons applies, in what order, and which vehicle reads each path
//! needed.

use vstd::prelude::*;

verus! {

/// Default `THR_DZ`.
pub const THR_DZ_DEFAULT: i16 = 100;

/// Upper bound written back onto `THR_DZ`.
pub const THR_DZ_MAX: i16 = 400;

/// `THR_DZ` after it is constrained to 0..400 and written back.
pub fn constrain_throttle_deadzone(deadzone: i16) -> (r: i16)
    ensures
        r == (if deadzone < 0 {
            0
        } else if deadzone > THR_DZ_MAX {
            THR_DZ_MAX
        } else {
            deadzone
        }),
        0 <= r <= THR_DZ_MAX,
{
    if deadzone < 0 {
        0
    } else if deadzone > THR_DZ_MAX {
        THR_DZ_MAX
    } else {
        deadzone
    }
}

/// Which deadband arm the pilot climb-rate conversion took.
#[derive(Debug, Clone, Copy, PartialEq, Eq, Structural)]
pub enum ClimbBand {
    /// No valid RC input: rate forced to zero.
    Failsafe,
    /// Below `mid - dz`: the descent speed applies.
    Below,
    /// Inside the deadband, including the edges: rate is zero.
    Deadband,
    /// Above `mid + dz`: the climb speed applies.
    Above,
}

/// What the pilot climb-rate conversion reads, with the stick's position
/// against the deadband as the caller compares it: the stick (after the toy
/// adjustment, when it runs, and clamped to 0..1000) against the throttle mid
/// plus or minus the constrained deadzone.
#[derive(Debug, Clone, Copy, PartialEq, Eq, Structural)]
pub struct ClimbRateContext {
    /// The RC input is valid.
    pub has_valid_input: bool,
    /// Toy mode is compiled in.
    pub toy_mode_compiled: bool,
    /// Toy mode is enabled.
    pub toy_mode_enabled: bool,
    /// `THR_DZ` before it is constrained and written back.
    pub throttle_deadzone: i16,
    /// The stick is below the bottom of the deadband.
    pub below_deadband: bool,
    /// The stick is above the top of the deadband.
    pub above_deadband: bool,
}

/// What the pilot climb-rate conversion decided. The rate itself is the
/// descent or climb speed scaled by the stick's distance past the deadband,
/// computed by the caller for the band chosen here.
#[derive(Debug, Clone, Copy, PartialEq, Eq, Structural)]
pub struct ClimbRateLeftover {
    /// Which band the stick is in.
    pub band: ClimbBand,
    /// The throttle stick was read.
    pub need_throttle_in: bool,
    /// Both toy switches are on, so the toy adjustment ran.
    pub need_toy_adjust: bool,
    /// The deadzone after it is constrained.
    pub deadzone: i16,
    /// The constrained deadzone was written back.
    pub deadzone_written: bool,
    /// The throttle mid was read.
    pub need_throttle_mid: bool,
    /// The descent speed is used.
    pub need_speed_dn: bool,
    /// The climb speed is used.
    pub need_speed_up: bool,
}

/// The pilot's desired climb rate: zero and nothing read without valid RC
/// input; otherwise below the deadband the descent speed applies, above it
/// the climb speed, and inside it (edges included) the rate is zero.
pub fn get_pilot_desired_climb_rate_ms(ctx: &ClimbRateContext) -> (r: ClimbRateLeftover)
    ensures
        r.band == (if !ctx.has_valid_input {
            ClimbBand::Failsafe
        } else if ctx.below_deadband {
            ClimbBand::Below
        } else if ctx.above_deadband {
            ClimbBand::Above
        } else {
            ClimbBand::Deadband
        }),
        r.need_throttle_in == ctx.has_valid_input,
        r.need_throttle_mid == ctx.has_valid_input,
        r.deadzone_written == ctx.has_valid_input,
        r.need_toy_adjust == (ctx.has_valid_input && ctx.toy_mode_compiled && ctx.toy_mode_enabled),
        r.deadzone == (if ctx.has_valid_input {
            if ctx.throttle_deadzone < 0 {
                0
            } else if ctx.throttle_deadzone > THR_DZ_MAX {
                THR_DZ_MAX
            } else {
                ctx.throttle_deadzone
            }
        } else {
            ctx.throttle_deadzone
        }),
        r.need_speed_dn == (r.band == ClimbBand::Below),
        r.need_speed_up == (r.band == ClimbBand::Above),
{
    if !ctx.has_valid_input {
        return ClimbRateLeftover {
            band: ClimbBand::Failsafe,
            need_throttle_in: false,
            need_toy_adjust: false,
            deadzone: ctx.throttle_deadzone,
            deadzone_written: false,
            need_throttle_mid: false,
            need_speed_dn: false,
            need_speed_up: false,
        };
    }
    let band = if ctx.below_deadband {
        ClimbBand::Below
    } else if ctx.above_deadband {
        ClimbBand::Above
    } else {
        ClimbBand::Deadband
    };
    ClimbRateLeftover {
        band,
        need_throttle_in: true,
        need_toy_adjust: ctx.toy_mode_compiled && ctx.toy_mode_enabled,
        deadzone: constrain_throttle_deadzone(ctx.throttle_deadzone),
        deadzone_written: true,
        need_throttle_mid: true,
        need_speed_dn: matches!(band, ClimbBand::Below),
        need_speed_up: matches!(band, ClimbBand::Above),
    }
}

/// Why hover-throttle learning did not run.
#[derive(Debug, Clone, Copy, PartialEq, Eq, Structural)]
pub enum HoverLearnSkip {
    /// The motors are disarmed.
    Disarmed,
    /// The aircraft is landed.
    LandComplete,
    /// Standby is active.
    Standby,
    /// The flight mode has a manual throttle.
    ManualThrottle,
    /// The flight mode is drift, whose throttle assist would corrupt the average.
    Drift,
    /// The position controller is asking for vertical speed.
    VerticalDemand,
    /// No down-velocity estimate.
    NoVelocityD,
    /// Throttle, descent or lean says the aircraft is not in a level hover.
    NotLevelHover,
}

/// What hover-throttle learning reads.
#[derive(Debug, Clone, Copy, PartialEq, Eq, Structural)]
pub struct HoverLearnContext {
    /// The motors are armed.
    pub armed: bool,
    /// The aircraft is landed.
    pub land_complete: bool,
    /// Standby is active.
    pub standby_active: bool,
    /// The flight mode has a manual throttle.
    pub has_manual_throttle: bool,
    /// The flight mode is drift.
    pub is_drift: bool,
    /// The position controller's desired vertical speed is zero.
    pub vel_desired_u_zero: bool,
    /// A down-velocity estimate is available.
    pub velocity_d_ok: bool,
    /// Throttle above zero, descent under 0.6 m/s, and roll (less trim) and
    /// pitch within five degrees.
    pub level_hover: bool,
    /// The gyro FFT is compiled in.
    pub gyro_fft_enabled: bool,
}

/// What hover-throttle learning asked the vehicle for.
#[derive(Debug, Clone, Copy, PartialEq, Eq, Structural)]
pub struct HoverLearnLeftover {
    /// Why learning did not run, or `None` when it did.
    pub skip: Option<HoverLearnSkip>,
    /// The desired vertical speed was read.
    pub need_vel_desired_u: bool,
    /// The down velocity was read.
    pub need_velocity_d: bool,
    /// The throttle was read.
    pub need_throttle: bool,
    /// The attitude comparison was made.
    pub need_attitude: bool,
    /// The hover throttle was updated.
    pub learn: bool,
    /// The gyro FFT's hover frequency was updated.
    pub learn_gyro_fft: bool,
    /// The throttle output was read for the FFT update.
    pub need_throttle_out: bool,
}

/// Why learning was skipped, in the order the gates are tested.
pub open spec fn hover_learn_skip_spec(c: HoverLearnContext) -> Option<HoverLearnSkip> {
    if !c.armed {
        Some(HoverLearnSkip::Disarmed)
    } else if c.land_complete {
        Some(HoverLearnSkip::LandComplete)
    } else if c.standby_active {
        Some(HoverLearnSkip::Standby)
    } else if c.has_manual_throttle {
        Some(HoverLearnSkip::ManualThrottle)
    } else if c.is_drift {
        Some(HoverLearnSkip::Drift)
    } else if !c.vel_desired_u_zero {
        Some(HoverLearnSkip::VerticalDemand)
    } else if !c.velocity_d_ok {
        Some(HoverLearnSkip::NoVelocityD)
    } else if !c.level_hover {
        Some(HoverLearnSkip::NotLevelHover)
    } else {
        None
    }
}

/// Whether the mode and arming gates (the first five) all passed.
pub open spec fn hover_learn_mode_gates_pass(c: HoverLearnContext) -> bool {
    c.armed && !c.land_complete && !c.standby_active && !c.has_manual_throttle && !c.is_drift
}

/// Hover-throttle learning.
///
/// A failed down-velocity read is a hard skip: learning on an unknown descent
/// would pull the hover estimate toward whatever throttle is out.
pub fn update_throttle_hover(ctx: &HoverLearnContext) -> (r: HoverLearnLeftover)
    ensures
        r.skip == hover_learn_skip_spec(*ctx),
        r.learn == r.skip.is_none(),
        r.need_vel_desired_u == hover_learn_mode_gates_pass(*ctx),
        r.need_velocity_d == (hover_learn_mode_gates_pass(*ctx) && ctx.vel_desired_u_zero),
        r.need_throttle == (hover_learn_mode_gates_pass(*ctx) && ctx.vel_desired_u_zero
            && ctx.velocity_d_ok),
        r.need_attitude == r.need_throttle,
        r.learn_gyro_fft == (r.learn && ctx.gyro_fft_enabled),
        r.need_throttle_out == r.learn_gyro_fft,
{
    let idle = HoverLearnLeftover {
        skip: None,
        need_vel_desired_u: false,
        need_velocity_d: false,
        need_throttle: false,
        need_attitude: false,
        learn: false,
        learn_gyro_fft: false,
        need_throttle_out: false,
    };
    if !ctx.armed {
        return HoverLearnLeftover { skip: Some(HoverLearnSkip::Disarmed), ..idle };
    }
    if ctx.land_complete {
        return HoverLearnLeftover { skip: Some(HoverLearnSkip::LandComplete), ..idle };
    }
    if ctx.standby_active {
        return HoverLearnLeftover { skip: Some(HoverLearnSkip::Standby), ..idle };
    }
    if ctx.has_manual_throttle {
        return HoverLearnLeftover { skip: Some(HoverLearnSkip::ManualThrottle), ..idle };
    }
    if ctx.is_drift {
        return HoverLearnLeftover { skip: Some(HoverLearnSkip::Drift), ..idle };
    }
    if !ctx.vel_desired_u_zero {
        return HoverLearnLeftover {
            skip: Some(HoverLearnSkip::VerticalDemand),
            need_vel_desired_u: true,
            ..idle
        };
    }
    if !ctx.velocity_d_ok {
        return HoverLearnLeftover {
            skip: Some(HoverLearnSkip::NoVelocityD),
            need_vel_desired_u: true,
            need_velocity_d: true,
            ..idle
        };
    }
    if !ctx.level_hover {
        return HoverLearnLeftover {
            skip: Some(HoverLearnSkip::NotLevelHover),
            need_vel_desired_u: true,
            need_velocity_d: true,
            need_throttle: true,
            need_attitude: true,
            ..idle
        };
    }
    let learn_gyro_fft = ctx.gyro_fft_enabled;
    HoverLearnLeftover {
        skip: None,
        need_vel_desired_u: true,
        need_velocity_d: true,
        need_throttle: true,
        need_attitude: true,
        learn: true,
        learn_gyro_fft,
        need_throttle_out: learn_gyro_fft,
    }
}

/// What the rate-controller tick asked the controllers for. The loop time it
/// hands on is passed through unchanged by the caller.
#[derive(Debug, Clone, Copy, PartialEq, Eq, Structural)]
pub struct RateControllerMainLeftover {
    /// The position controller's dt was set.
    pub set_pos_control_dt: bool,
    /// The attitude controller's dt was set.
    pub set_attitude_control_dt: bool,
    /// The motors' dt was set: only when the rate thread is off.
    pub set_motors_dt: bool,
    /// The rate controller ran on this thread.
    pub run_rate_controller: bool,
    /// The rate target was reset: always, so one-shot inputs do not leak into
    /// the next iteration.
    pub reset_rate_target: bool,
}

/// The main-thread rate-controller tick. A separate rate thread owns the rate
/// controller and the motors' dt when it is on.
pub fn run_rate_controller_main(using_rate_thread: bool) -> (r: RateControllerMainLeftover)
    ensures
        r.set_pos_control_dt && r.set_attitude_control_dt && r.reset_rate_target,
        r.set_motors_dt == !using_rate_thread,
        r.run_rate_controller == !using_rate_thread,
{
    RateControllerMainLeftover {
        set_pos_control_dt: true,
        set_attitude_control_dt: true,
        set_motors_dt: !using_rate_thread,
        run_rate_controller: !using_rate_thread,
        reset_rate_target: true,
    }
}

} // verus!
