//! The flight phase controller: which observation moves the mission from
//! one phase to the next.

use vstd::prelude::*;
use crate::state::State;

verus! {

/// What the sensors and timers can establish about the flight.
#[derive(Debug, Clone, Copy, PartialEq, Eq, Structural)]
pub enum Observation {
    /// A valid position fix was seen for the first time.
    FixObtained,
    /// The readiness checks have passed.
    ReadyForLaunch,
    /// The altitude has risen steadily above the launch threshold.
    Ascending,
    /// The vertical speed has stayed negative past the apogee.
    Descending,
    /// The vertical speed is below the landing threshold and the altitude
    /// has been stable.
    Settled,
}

/// How the program starts.
#[derive(Debug, Clone, Copy, PartialEq, Eq, Structural)]
pub enum Boot {
    /// No record of an earlier run: the mission begins.
    Mission,
    /// An earlier run left its record behind: it did not shut down
    /// cleanly, and the program recovers.
    Recovery,
}

/// The phase that follows `phase` once `seen` has been observed, if that
/// observation ends the phase.
pub open spec fn follows(phase: State, seen: Observation) -> Option<State> {
    match (phase, seen) {
        (State::AcquiringFix, Observation::FixObtained) => Some(State::FixAcquired),
        (State::FixAcquired, Observation::ReadyForLaunch) => Some(State::WaitingLaunch),
        (State::WaitingLaunch, Observation::Ascending) => Some(State::GoingUp),
        (State::GoingUp, Observation::Descending) => Some(State::GoingDown),
        (State::GoingDown, Observation::Settled) => Some(State::Landed),
        _ => None,
    }
}

/// The phase that follows `phase` once `seen` has been observed. `None`
/// while the observation is not the one that ends the phase: the mission
/// stays where it is.
pub fn next_phase(phase: State, seen: Observation) -> (next: Option<State>)
    ensures
        next == follows(phase, seen),
{
    match (phase, seen) {
        (State::AcquiringFix, Observation::FixObtained) => Some(State::FixAcquired),
        (State::FixAcquired, Observation::ReadyForLaunch) => Some(State::WaitingLaunch),
        (State::WaitingLaunch, Observation::Ascending) => Some(State::GoingUp),
        (State::GoingUp, Observation::Descending) => Some(State::GoingDown),
        (State::GoingDown, Observation::Settled) => Some(State::Landed),
        _ => None,
    }
}

/// How the program starts, given whether the durable record of an earlier
/// run is present.
pub fn boot(record_present: bool) -> (mode: Boot)
    ensures
        mode == if record_present {
            Boot::Recovery
        } else {
            Boot::Mission
        },
{
    if record_present {
        Boot::Recovery
    } else {
        Boot::Mission
    }
}

/// The controller moves the mission one phase forward at a time: what it
/// decides is a move that the mission may make, to the very next phase,
/// and it never decides the recovery phase or the shut-down.
pub proof fn lemma_controller_moves_forward(phase: State, seen: Observation)
    ensures
        follows(phase, seen) matches Some(next) ==> {
            &&& phase.may_become(next)
            &&& next.rank() == phase.rank() + 1
            &&& State::AcquiringFix.rank() < next.rank() <= State::Landed.rank()
        },
{
}

} // verus!
