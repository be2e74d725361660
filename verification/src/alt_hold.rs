//! The ground-to-air state machine every altitude-holding mode runs through.
//!
//! The machine returns both the state the calling mode should act on and the
//! spool command the motors should follow. The command is half of the
//! decision: the state says what to do this iteration, the command says where
//! the motors should be heading so that a later iteration can return
//! something else.
//!
//! The only part of the target climb rate the machine reads is its sign,
//! carried here as a [`ClimbDemand`].

use vstd::prelude::*;
use crate::spool::{DesiredSpoolState, SpoolState};

verus! {

/// Where an altitude-holding mode sits in the ground-to-air sequence.
///
/// Declared in the order whose positions reach the logs; see
/// [`AltHoldModeState::number`].
#[derive(Debug, Clone, Copy, PartialEq, Eq, Structural)]
pub enum AltHoldModeState {
    /// Disarmed and spooled down. Nothing turns.
    MotorStopped,
    /// Climbing away under the takeoff helper's control.
    Takeoff,
    /// On the ground with the rotors at idle. Attitude control runs.
    LandedGroundIdle,
    /// On the ground and free to leave it the moment the pilot asks.
    LandedPreTakeoff,
    /// Airborne. The mode's own controller has the aircraft.
    Flying,
}

impl AltHoldModeState {
    /// The number this state is logged under.
    pub fn number(self) -> (n: u8)
        ensures
            n == match self {
                AltHoldModeState::MotorStopped => 0u8,
                AltHoldModeState::Takeoff => 1u8,
                AltHoldModeState::LandedGroundIdle => 2u8,
                AltHoldModeState::LandedPreTakeoff => 3u8,
                AltHoldModeState::Flying => 4u8,
            },
    {
        match self {
            AltHoldModeState::MotorStopped => 0,
            AltHoldModeState::Takeoff => 1,
            AltHoldModeState::LandedGroundIdle => 2,
            AltHoldModeState::LandedPreTakeoff => 3,
            AltHoldModeState::Flying => 4,
        }
    }
}

/// The sign of the climb rate a mode is asking for.
///
/// Zero is its own case: a stick at centre is neither a request to leave the
/// ground nor a request to spool down.
#[derive(Debug, Clone, Copy, PartialEq, Eq, Structural)]
pub enum ClimbDemand {
    /// A negative climb rate.
    Descend,
    /// Exactly zero.
    Hold,
    /// A positive climb rate.
    Climb,
}

/// What the machine decided, and what it wants the motors doing.
#[derive(Debug, Clone, Copy, PartialEq, Eq, Structural)]
pub struct AltHoldDecision {
    /// What the calling mode should do this iteration.
    pub state: AltHoldModeState,
    /// Where the motors should be heading, or `None` where no command is
    /// issued and the previous one stands.
    pub desired_spool: Option<DesiredSpoolState>,
}

/// Everything the machine reads.
#[derive(Debug, Clone, Copy, PartialEq, Eq, Structural)]
pub struct AltHoldInputs {
    /// The motors are armed.
    pub armed: bool,
    /// Where the motors are, not where they were last told to go.
    pub spool_state: SpoolState,
    /// The takeoff helper is already flying the climb.
    pub takeoff_running: bool,
    /// Armed and the throttle has been raised, so the aircraft may fly.
    pub auto_armed: bool,
    /// The land detector says the aircraft is on the ground.
    pub land_complete: bool,
    /// A motor interlock is gating the output.
    pub using_interlock: bool,
    /// The sign of the climb rate the mode is asking for.
    pub climb: ClimbDemand,
}

/// Whether a takeoff should begin: on the ground, asked to climb, and the
/// rotors have finished running up.
pub open spec fn takeoff_triggered_spec(
    land_complete: bool,
    climb: ClimbDemand,
    spool_state: SpoolState,
) -> bool {
    land_complete && climb == ClimbDemand::Climb && spool_state == SpoolState::ThrottleUnlimited
}

/// Whether a takeoff should begin.
///
/// A climb rate of exactly zero does not trigger one, while the landed branch
/// of [`alt_hold_state`] reads zero as "prepare to fly".
pub fn takeoff_triggered(land_complete: bool, climb: ClimbDemand, spool_state: SpoolState) -> (r:
    bool)
    ensures
        r == takeoff_triggered_spec(land_complete, climb, spool_state),
{
    if !land_complete {
        return false;
    }
    if !matches!(climb, ClimbDemand::Climb) {
        return false;
    }
    matches!(spool_state, SpoolState::ThrottleUnlimited)
}

/// The state a disarmed aircraft reports: where the motors are.
pub open spec fn disarmed_state(spool_state: SpoolState) -> AltHoldModeState {
    match spool_state {
        SpoolState::ShutDown => AltHoldModeState::MotorStopped,
        SpoolState::GroundIdle => AltHoldModeState::LandedGroundIdle,
        _ => AltHoldModeState::LandedPreTakeoff,
    }
}

/// The machine as a function of its inputs.
pub open spec fn alt_hold_state_spec(i: AltHoldInputs) -> AltHoldDecision {
    if !i.armed {
        AltHoldDecision {
            state: disarmed_state(i.spool_state),
            desired_spool: Some(DesiredSpoolState::ShutDown),
        }
    } else if i.takeoff_running || takeoff_triggered_spec(i.land_complete, i.climb, i.spool_state) {
        AltHoldDecision { state: AltHoldModeState::Takeoff, desired_spool: None }
    } else if !i.auto_armed || i.land_complete {
        AltHoldDecision {
            state: if i.spool_state == SpoolState::GroundIdle {
                AltHoldModeState::LandedGroundIdle
            } else {
                AltHoldModeState::LandedPreTakeoff
            },
            desired_spool: Some(
                if i.climb == ClimbDemand::Descend && !i.using_interlock {
                    DesiredSpoolState::GroundIdle
                } else {
                    DesiredSpoolState::ThrottleUnlimited
                },
            ),
        }
    } else {
        AltHoldDecision {
            state: AltHoldModeState::Flying,
            desired_spool: Some(DesiredSpoolState::ThrottleUnlimited),
        }
    }
}

/// The altitude-hold state machine.
///
/// Disarmed is tested first, so nothing below it can keep the motors alive.
/// Takeoff is tested before landed, so an aircraft that has begun its climb is
/// not dragged back to a ground state by a `land_complete` that has not yet
/// cleared. Only what survives all three is flying.
pub fn alt_hold_state(inputs: &AltHoldInputs) -> (d: AltHoldDecision)
    ensures
        d == alt_hold_state_spec(*inputs),
        // A disarmed aircraft is always told to shut down.
        !inputs.armed ==> d.desired_spool == Some(DesiredSpoolState::ShutDown),
        // Flying only when armed, allowed to fly, off the ground and not taking off.
        d.state == AltHoldModeState::Flying <==> (inputs.armed && inputs.auto_armed
            && !inputs.land_complete && !inputs.takeoff_running),
        // The takeoff branch issues no spool command, and is the only one that does not.
        d.desired_spool.is_none() <==> d.state == AltHoldModeState::Takeoff,
{
    if !inputs.armed {
        let state = match inputs.spool_state {
            SpoolState::ShutDown => AltHoldModeState::MotorStopped,
            SpoolState::GroundIdle => AltHoldModeState::LandedGroundIdle,
            _ => AltHoldModeState::LandedPreTakeoff,
        };
        return AltHoldDecision { state, desired_spool: Some(DesiredSpoolState::ShutDown) };
    }
    if inputs.takeoff_running || takeoff_triggered(
        inputs.land_complete,
        inputs.climb,
        inputs.spool_state,
    ) {
        return AltHoldDecision { state: AltHoldModeState::Takeoff, desired_spool: None };
    }
    if !inputs.auto_armed || inputs.land_complete {
        let desired_spool = if matches!(inputs.climb, ClimbDemand::Descend)
            && !inputs.using_interlock {
            DesiredSpoolState::GroundIdle
        } else {
            DesiredSpoolState::ThrottleUnlimited
        };
        let state = if matches!(inputs.spool_state, SpoolState::GroundIdle) {
            AltHoldModeState::LandedGroundIdle
        } else {
            AltHoldModeState::LandedPreTakeoff
        };
        return AltHoldDecision { state, desired_spool: Some(desired_spool) };
    }
    AltHoldDecision {
        state: AltHoldModeState::Flying,
        desired_spool: Some(DesiredSpoolState::ThrottleUnlimited),
    }
}

/// An armed aircraft that is not taking off is never reported as stopped:
/// `MotorStopped` is reserved for a disarmed one whose motors have stopped.
pub proof fn lemma_motor_stopped_only_when_disarmed(i: AltHoldInputs)
    ensures
        alt_hold_state_spec(i).state == AltHoldModeState::MotorStopped ==> (!i.armed
            && i.spool_state == SpoolState::ShutDown),
{
}

/// The machine never asks for a ground-idle spool while a climb is demanded:
/// only a descent request from the ground, without an interlock, settles the
/// motors to idle.
pub proof fn lemma_ground_idle_only_on_descent(i: AltHoldInputs)
    ensures
        alt_hold_state_spec(i).desired_spool == Some(DesiredSpoolState::GroundIdle) ==> (i.armed
            && i.climb == ClimbDemand::Descend && !i.using_interlock),
{
}

} // verus!
