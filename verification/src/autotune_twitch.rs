//! One tick of an AutoTune twitch: which step input is commanded, when the
//! twitch is done, and when it aborts.
//!
//! The twitch measures real numbers: the peak and minimum of the rate (or of
//! the angle, for the angle-P tune types) and the lean. The caller updates
//! those measurements and hands over how they compare with their targets;
//! what is decided here is the command, the step timeout on the wrapping
//! millisecond clock, and the twitch's outcome.

use vstd::prelude::*;
use crate::mode_autotune::{
    twitch_is_angle_p, twitch_is_angle_p_spec, twitch_is_heli_only, twitch_is_heli_only_spec,
    TuneType, TwitchTick, AUTOTUNE_TESTING_STEP_TIMEOUT_MS,
};

verus! {

/// What a twitch tick reads.
#[derive(Debug, Clone, Copy, PartialEq, Eq, Structural)]
pub struct AutoTuneTwitchView {
    /// The tune type being twitched.
    pub tune_type: TuneType,
    /// An angle step was already commanded in this twitch.
    pub angle_step_commanded: bool,
    /// The clock.
    pub now_ms: u32,
    /// When the twitch started.
    pub step_start_time_ms: u32,
    /// The twitch's timeout before this tick.
    pub step_timeout_ms: u32,
    /// The measured peak is still below 63.21% of its target (one time
    /// constant), so the timeout is stretched to three times the elapsed time.
    pub response_slow: bool,
    /// The measured peak went past its target.
    pub peak_over_target: bool,
    /// The bounce back from the peak exceeded the aggressiveness share of it.
    pub bounce_over_aggressiveness: bool,
    /// The lean reached the abort angle (rate twitches only).
    pub lean_at_abort: bool,
    /// At the abort angle the rate sat at its minimum, or the lean's minimum
    /// was past 95% of the abort angle: the twitch stalled.
    pub abort_stalled: bool,
    /// The step scaler is still above its floor of 0.2.
    pub step_scaler_above_floor: bool,
}

/// What a twitch tick decided.
#[derive(Debug, Clone, Copy, PartialEq, Eq, Structural)]
pub struct AutoTuneTwitch {
    /// Whether the twitch runs on, is done, or aborts.
    pub tick: TwitchTick,
    /// The twitch's timeout after this tick.
    pub step_timeout_ms: u32,
    /// The step scaler is shrunk by a tenth.
    pub shrink_step_scaler: bool,
    /// An angle step is commanded.
    pub input_angle_step: bool,
    /// A rate step is commanded.
    pub input_rate_step: bool,
    /// The rates are held at zero after the angle step.
    pub input_rate_hold: bool,
    /// A helicopter tune type reached the multicopter twitch.
    pub flow_of_control: bool,
    /// The tune failed.
    pub failed: bool,
    /// A limit was reached.
    pub reached_limit: bool,
    /// An angle step has been commanded in this twitch.
    pub angle_step_commanded: bool,
}

/// Milliseconds since the twitch started, on the wrapping clock.
pub open spec fn twitch_elapsed(now: u32, start: u32) -> int {
    if now >= start {
        now - start
    } else {
        now - start + 0x1_0000_0000
    }
}

/// The timeout after a tick: stretched to three times the elapsed time
/// (wrapping), capped at the testing step timeout, while the response is
/// slow; otherwise unchanged.
pub open spec fn twitch_timeout_spec(now: u32, start: u32, timeout: u32, slow: bool) -> u32 {
    if slow {
        let tripled = (twitch_elapsed(now, start) * 3) % 0x1_0000_0000;
        if tripled < AUTOTUNE_TESTING_STEP_TIMEOUT_MS {
            tripled as u32
        } else {
            AUTOTUNE_TESTING_STEP_TIMEOUT_MS
        }
    } else {
        timeout
    }
}

/// The step timeout after a tick, and whether the twitch has run out of time.
#[derive(Debug, Clone, Copy, PartialEq, Eq, Structural)]
pub struct TwitchTimeout {
    /// The timeout after the tick.
    pub step_timeout_ms: u32,
    /// The elapsed time reached the timeout.
    pub timed_out: bool,
}

/// The step timeout of a twitch tick.
pub fn twitch_step_timeout(now_ms: u32, step_start_time_ms: u32, step_timeout_ms: u32, slow: bool) -> (r:
    TwitchTimeout)
    ensures
        r.step_timeout_ms == twitch_timeout_spec(now_ms, step_start_time_ms, step_timeout_ms, slow),
        r.timed_out == (twitch_elapsed(now_ms, step_start_time_ms) >= r.step_timeout_ms),
{
    let elapsed = now_ms.wrapping_sub(step_start_time_ms);
    assert(elapsed == twitch_elapsed(now_ms, step_start_time_ms));
    let mut timeout = step_timeout_ms;
    if slow {
        let tripled = elapsed.wrapping_mul(3);
        assert(tripled == (twitch_elapsed(now_ms, step_start_time_ms) * 3) % 0x1_0000_0000);
        timeout = if tripled < AUTOTUNE_TESTING_STEP_TIMEOUT_MS {
            tripled
        } else {
            AUTOTUNE_TESTING_STEP_TIMEOUT_MS
        };
    }
    TwitchTimeout { step_timeout_ms: timeout, timed_out: elapsed >= timeout }
}

/// What the abort check of a rate twitch decided.
#[derive(Debug, Clone, Copy, PartialEq, Eq, Structural)]
pub struct TwitchingAbort {
    /// The step scaler is shrunk by a tenth.
    pub shrink_step_scaler: bool,
    /// The tune failed.
    pub failed: bool,
    /// A limit was reached.
    pub reached_limit: bool,
    /// The twitch's outcome, when the abort angle was reached.
    pub tick: Option<TwitchTick>,
}

/// The abort check of a rate twitch, by what it reads.
pub open spec fn twitching_abort_rate_spec(lean_at_abort: bool, stalled: bool, above_floor: bool) -> TwitchingAbort {
    if !lean_at_abort {
        TwitchingAbort { shrink_step_scaler: false, failed: false, reached_limit: false, tick: None }
    } else if stalled {
        if above_floor {
            TwitchingAbort {
                shrink_step_scaler: true,
                failed: false,
                reached_limit: false,
                tick: Some(TwitchTick::Aborted),
            }
        } else {
            TwitchingAbort {
                shrink_step_scaler: false,
                failed: true,
                reached_limit: true,
                tick: Some(TwitchTick::Aborted),
            }
        }
    } else {
        TwitchingAbort {
            shrink_step_scaler: false,
            failed: false,
            reached_limit: false,
            tick: Some(TwitchTick::Done),
        }
    }
}

/// The abort check of a rate twitch. Below the abort angle nothing happens.
/// At it, a twitch that kept rotating is done; one that stalled aborts with a
/// smaller step, or, with the step already at its floor, fails the tune.
pub fn twitching_abort_rate(lean_at_abort: bool, stalled: bool, step_scaler_above_floor: bool) -> (r:
    TwitchingAbort)
    ensures
        r == twitching_abort_rate_spec(lean_at_abort, stalled, step_scaler_above_floor),
{
    if !lean_at_abort {
        return TwitchingAbort {
            shrink_step_scaler: false,
            failed: false,
            reached_limit: false,
            tick: None,
        };
    }
    if stalled {
        if step_scaler_above_floor {
            TwitchingAbort {
                shrink_step_scaler: true,
                failed: false,
                reached_limit: false,
                tick: Some(TwitchTick::Aborted),
            }
        } else {
            TwitchingAbort {
                shrink_step_scaler: false,
                failed: true,
                reached_limit: true,
                tick: Some(TwitchTick::Aborted),
            }
        }
    } else {
        TwitchingAbort {
            shrink_step_scaler: false,
            failed: false,
            reached_limit: false,
            tick: Some(TwitchTick::Done),
        }
    }
}

/// Whether a tune type twitches a rate.
pub open spec fn is_rate_twitch(t: TuneType) -> bool {
    t == TuneType::RateDUp || t == TuneType::RateDDown || t == TuneType::RatePUp
}

/// A twitch tick, by what it reads.
///
/// The angle-P types command their angle step once and then hold the rates;
/// the rate types command a rate step every tick. Either twitch is done when
/// its peak passes the target, when it bounces back by more than the
/// aggressiveness share, or when it runs out of time; a rate twitch that
/// reaches the abort angle is decided by the abort check instead. The
/// helicopter types are a flow-of-control error and command nothing.
pub open spec fn autotune_test_run_spec(v: AutoTuneTwitchView) -> AutoTuneTwitch {
    let angle_p = twitch_is_angle_p_spec(v.tune_type);
    let rate_step = !angle_p && !twitch_is_heli_only_spec(v.tune_type) && v.tune_type
        != TuneType::TuneComplete;
    let base = AutoTuneTwitch {
        tick: TwitchTick::Running,
        step_timeout_ms: v.step_timeout_ms,
        shrink_step_scaler: false,
        input_angle_step: angle_p && !v.angle_step_commanded,
        input_rate_step: rate_step,
        input_rate_hold: angle_p && v.angle_step_commanded,
        flow_of_control: twitch_is_heli_only_spec(v.tune_type),
        failed: false,
        reached_limit: false,
        angle_step_commanded: v.angle_step_commanded || angle_p,
    };
    if is_rate_twitch(v.tune_type) || angle_p {
        let timeout = twitch_timeout_spec(
            v.now_ms,
            v.step_start_time_ms,
            v.step_timeout_ms,
            v.response_slow,
        );
        let done = v.peak_over_target || v.bounce_over_aggressiveness || twitch_elapsed(
            v.now_ms,
            v.step_start_time_ms,
        ) >= timeout;
        let measured = AutoTuneTwitch {
            step_timeout_ms: timeout,
            tick: if done {
                TwitchTick::Done
            } else {
                TwitchTick::Running
            },
            ..base
        };
        if angle_p {
            measured
        } else {
            let abort = twitching_abort_rate_spec(
                v.lean_at_abort,
                v.abort_stalled,
                v.step_scaler_above_floor,
            );
            AutoTuneTwitch {
                shrink_step_scaler: abort.shrink_step_scaler,
                failed: abort.failed,
                reached_limit: abort.reached_limit,
                tick: match abort.tick {
                    Some(t) => t,
                    None => measured.tick,
                },
                ..measured
            }
        }
    } else {
        base
    }
}

/// One tick of a twitch.
pub fn autotune_test_run(view: &AutoTuneTwitchView) -> (r: AutoTuneTwitch)
    ensures
        r == autotune_test_run_spec(*view),
{
    let angle_p = twitch_is_angle_p(view.tune_type);
    let heli = twitch_is_heli_only(view.tune_type);
    let rate_step = !angle_p && !heli && !matches!(view.tune_type, TuneType::TuneComplete);
    let base = AutoTuneTwitch {
        tick: TwitchTick::Running,
        step_timeout_ms: view.step_timeout_ms,
        shrink_step_scaler: false,
        input_angle_step: angle_p && !view.angle_step_commanded,
        input_rate_step: rate_step,
        input_rate_hold: angle_p && view.angle_step_commanded,
        flow_of_control: heli,
        failed: false,
        reached_limit: false,
        angle_step_commanded: view.angle_step_commanded || angle_p,
    };
    let rate_twitch = matches!(
        view.tune_type,
        TuneType::RateDUp | TuneType::RateDDown | TuneType::RatePUp
    );
    if !rate_twitch && !angle_p {
        return base;
    }
    let timeout = twitch_step_timeout(
        view.now_ms,
        view.step_start_time_ms,
        view.step_timeout_ms,
        view.response_slow,
    );
    let done = view.peak_over_target || view.bounce_over_aggressiveness || timeout.timed_out;
    let measured = AutoTuneTwitch {
        step_timeout_ms: timeout.step_timeout_ms,
        tick: if done {
            TwitchTick::Done
        } else {
            TwitchTick::Running
        },
        ..base
    };
    if angle_p {
        return measured;
    }
    let abort = twitching_abort_rate(
        view.lean_at_abort,
        view.abort_stalled,
        view.step_scaler_above_floor,
    );
    AutoTuneTwitch {
        shrink_step_scaler: abort.shrink_step_scaler,
        failed: abort.failed,
        reached_limit: abort.reached_limit,
        tick: match abort.tick {
            Some(t) => t,
            None => measured.tick,
        },
        ..measured
    }
}

/// A tick commands at most one input, an angle step at most once per twitch:
/// after the first tick of an angle-P twitch the rates are only held.
pub proof fn lemma_one_input_per_tick(v: AutoTuneTwitchView)
    ensures
        ({
            let r = autotune_test_run_spec(v);
            &&& (r.input_angle_step as int) + (r.input_rate_step as int) + (r.input_rate_hold as int)
                <= 1
            &&& r.input_angle_step ==> !v.angle_step_commanded && r.angle_step_commanded
            &&& v.angle_step_commanded ==> !r.input_angle_step
        }),
{
}

/// While the response is slow, a twitch never waits longer than the testing
/// step timeout: the stretched timeout is capped there, and once that much
/// time has passed the twitch is over (done, or aborted by the abort check).
pub proof fn lemma_slow_twitch_is_bounded(v: AutoTuneTwitchView)
    requires
        v.response_slow,
        is_rate_twitch(v.tune_type) || twitch_is_angle_p_spec(v.tune_type),
        twitch_elapsed(v.now_ms, v.step_start_time_ms) >= AUTOTUNE_TESTING_STEP_TIMEOUT_MS,
    ensures
        autotune_test_run_spec(v).step_timeout_ms <= AUTOTUNE_TESTING_STEP_TIMEOUT_MS,
        autotune_test_run_spec(v).tick != TwitchTick::Running,
{
}

/// A twitch fails the tune only when it stalls at the abort angle with its
/// step already at the floor; a failed twitch is aborted and reports the
/// limit, and a stalled one above the floor only shrinks its step.
pub proof fn lemma_twitch_fails_only_at_step_floor(v: AutoTuneTwitchView)
    ensures
        ({
            let r = autotune_test_run_spec(v);
            &&& r.failed ==> v.lean_at_abort && v.abort_stalled && !v.step_scaler_above_floor
                && r.tick == TwitchTick::Aborted && r.reached_limit
            &&& r.shrink_step_scaler ==> r.tick == TwitchTick::Aborted && !r.failed
        }),
{
}

} // verus!
