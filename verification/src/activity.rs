//! The battery activity: the one user of the modem during the flight. It
//! measures both batteries about every ninety seconds until the mission
//! shuts down, and powers the modem only for as long as a measurement
//! takes.

use vstd::prelude::*;
use crate::state::State;

verus! {

/// Seconds between two measurements, and before a new attempt after a
/// failed one.
pub const PAUSE: u64 = 90;

/// Seconds that a modem found off is left off before it is powered for a
/// measurement.
pub const REST: u64 = 900;

/// What the activity asks its driver to do.
#[derive(Debug, Clone, Copy, PartialEq, Eq, Structural)]
pub enum Task {
    /// Read the shared phase. Answer with `Outcome::Phase`.
    ObservePhase,
    /// Take exclusive hold of the modem. Answer with `Outcome::Done`.
    AcquireModem,
    /// Read the status pin of the modem. Answer with `Outcome::Status`.
    ReadStatus,
    /// Run a battery check on the modem to its end. Answer with
    /// `Outcome::Checked`.
    CheckBattery,
    /// Power the modem on. Answer with `Outcome::Done`.
    PowerOn,
    /// Power the modem off. Answer with `Outcome::Done`.
    PowerOff,
    /// Give the modem up. Answer with `Outcome::Done`.
    ReleaseModem,
    /// Write the two fractions of the last check to the battery log.
    /// Answer with `Outcome::Done`.
    Record,
    /// Let the given number of seconds pass. Answer with `Outcome::Done`.
    Sleep(u64),
    /// The mission has shut down: the activity ends.
    Exit,
}

/// What came of a task.
#[derive(Debug, Clone, Copy, PartialEq, Eq, Structural)]
pub enum Outcome {
    Phase(State),
    Status(bool),
    /// Whether the battery check gave a reading.
    Checked(bool),
    Done,
}

/// Where the activity stands in its cycle.
#[derive(Debug, Clone, Copy, PartialEq, Eq, Structural)]
pub enum Battery {
    /// The shared phase is being read.
    Observing,
    /// The modem is being acquired.
    Acquiring,
    /// The status pin is being read.
    Probing,
    /// A modem found on is being measured.
    MeasuringWarm,
    /// A modem found off rests before it is powered.
    Resting,
    /// The modem is being powered on.
    PoweringOn,
    /// A modem powered for the purpose is being measured.
    MeasuringCold,
    /// The modem is being powered off again.
    PoweringOff,
    /// The modem is being released after a reading.
    ReleasingRead,
    /// The modem is being released after a failed check.
    ReleasingFailed,
    /// The reading is being written down.
    Recording,
    /// The pause between two cycles.
    Pausing,
    /// The activity has ended.
    Ended,
}

impl Battery {
    /// The task that the activity waits to be answered at this stage.
    pub open spec fn awaited(self) -> Task {
        match self {
            Battery::Observing => Task::ObservePhase,
            Battery::Acquiring => Task::AcquireModem,
            Battery::Probing => Task::ReadStatus,
            Battery::MeasuringWarm => Task::CheckBattery,
            Battery::Resting => Task::Sleep(REST),
            Battery::PoweringOn => Task::PowerOn,
            Battery::MeasuringCold => Task::CheckBattery,
            Battery::PoweringOff => Task::PowerOff,
            Battery::ReleasingRead => Task::ReleaseModem,
            Battery::ReleasingFailed => Task::ReleaseModem,
            Battery::Recording => Task::Record,
            Battery::Pausing => Task::Sleep(PAUSE),
            Battery::Ended => Task::Exit,
        }
    }

    /// Whether the activity holds the modem at this stage.
    pub open spec fn holds_modem(self) -> bool {
        match self {
            Battery::Probing
            | Battery::MeasuringWarm
            | Battery::Resting
            | Battery::PoweringOn
            | Battery::MeasuringCold
            | Battery::PoweringOff
            | Battery::ReleasingRead
            | Battery::ReleasingFailed => true,
            _ => false,
        }
    }

    /// The stage after `outcome`. An outcome that does not answer the
    /// awaited task changes nothing.
    pub open spec fn after(self, outcome: Outcome) -> Battery {
        match (self, outcome) {
            (Battery::Observing, Outcome::Phase(State::ShutDown)) => Battery::Ended,
            (Battery::Observing, Outcome::Phase(_)) => Battery::Acquiring,
            (Battery::Acquiring, Outcome::Done) => Battery::Probing,
            (Battery::Probing, Outcome::Status(true)) => Battery::MeasuringWarm,
            (Battery::Probing, Outcome::Status(false)) => Battery::Resting,
            (Battery::MeasuringWarm, Outcome::Checked(true)) => Battery::ReleasingRead,
            (Battery::MeasuringWarm, Outcome::Checked(false)) => Battery::ReleasingFailed,
            (Battery::Resting, Outcome::Done) => Battery::PoweringOn,
            (Battery::PoweringOn, Outcome::Done) => Battery::MeasuringCold,
            (Battery::MeasuringCold, Outcome::Checked(true)) => Battery::PoweringOff,
            (Battery::MeasuringCold, Outcome::Checked(false)) => Battery::ReleasingFailed,
            (Battery::PoweringOff, Outcome::Done) => Battery::ReleasingRead,
            (Battery::ReleasingRead, Outcome::Done) => Battery::Recording,
            (Battery::ReleasingFailed, Outcome::Done) => Battery::Pausing,
            (Battery::Recording, Outcome::Done) => Battery::Pausing,
            (Battery::Pausing, Outcome::Done) => Battery::Observing,
            (stage, _) => stage,
        }
    }

    /// The activity at its beginning, and its first task.
    pub fn begin() -> (first: (Battery, Task))
        ensures
            first == (Battery::Observing, Task::ObservePhase),
    {
        (Battery::Observing, Task::ObservePhase)
    }

    /// The task that the activity waits to be answered at this stage.
    pub fn task(self) -> (task: Task)
        ensures
            task == self.awaited(),
    {
        match self {
            Battery::Observing => Task::ObservePhase,
            Battery::Acquiring => Task::AcquireModem,
            Battery::Probing => Task::ReadStatus,
            Battery::MeasuringWarm => Task::CheckBattery,
            Battery::Resting => Task::Sleep(REST),
            Battery::PoweringOn => Task::PowerOn,
            Battery::MeasuringCold => Task::CheckBattery,
            Battery::PoweringOff => Task::PowerOff,
            Battery::ReleasingRead => Task::ReleaseModem,
            Battery::ReleasingFailed => Task::ReleaseModem,
            Battery::Recording => Task::Record,
            Battery::Pausing => Task::Sleep(PAUSE),
            Battery::Ended => Task::Exit,
        }
    }

    /// Resumes the activity with what came of its last task, and gives the
    /// next task.
    pub fn resume(self, outcome: Outcome) -> (next: (Battery, Task))
        ensures
            next.0 == self.after(outcome),
            next.1 == self.after(outcome).awaited(),
    {
        let stage = match (self, outcome) {
            (Battery::Observing, Outcome::Phase(State::ShutDown)) => Battery::Ended,
            (Battery::Observing, Outcome::Phase(_)) => Battery::Acquiring,
            (Battery::Acquiring, Outcome::Done) => Battery::Probing,
            (Battery::Probing, Outcome::Status(true)) => Battery::MeasuringWarm,
            (Battery::Probing, Outcome::Status(false)) => Battery::Resting,
            (Battery::MeasuringWarm, Outcome::Checked(true)) => Battery::ReleasingRead,
            (Battery::MeasuringWarm, Outcome::Checked(false)) => Battery::ReleasingFailed,
            (Battery::Resting, Outcome::Done) => Battery::PoweringOn,
            (Battery::PoweringOn, Outcome::Done) => Battery::MeasuringCold,
            (Battery::MeasuringCold, Outcome::Checked(true)) => Battery::PoweringOff,
            (Battery::MeasuringCold, Outcome::Checked(false)) => Battery::ReleasingFailed,
            (Battery::PoweringOff, Outcome::Done) => Battery::ReleasingRead,
            (Battery::ReleasingRead, Outcome::Done) => Battery::Recording,
            (Battery::ReleasingFailed, Outcome::Done) => Battery::Pausing,
            (Battery::Recording, Outcome::Done) => Battery::Pausing,
            (Battery::Pausing, Outcome::Done) => Battery::Observing,
            (stage, _) => stage,
        };
        (stage, stage.task())
    }
}

/// The stage that the activity reaches from `stage` as `outcomes` arrive.
pub open spec fn stage_after(stage: Battery, outcomes: Seq<Outcome>) -> Battery
    decreases outcomes.len(),
{
    if outcomes.len() == 0 {
        stage
    } else {
        stage_after(stage, outcomes.drop_last()).after(outcomes.last())
    }
}

/// The modem is held exactly from its acquisition to its release: the
/// hold changes only when the acquisition or the release is answered, and
/// the tasks that use the modem are asked for only while it is held. The
/// pause between cycles and the reading of the phase happen without it.
pub proof fn lemma_modem_held_while_used(stage: Battery, outcome: Outcome)
    ensures
        stage.after(outcome).holds_modem() != stage.holds_modem() ==> outcome == Outcome::Done && (
        stage.awaited() == Task::AcquireModem || stage.awaited() == Task::ReleaseModem),
        stage.awaited() == Task::AcquireModem ==> !stage.holds_modem(),
        stage.awaited() == Task::ReleaseModem ==> stage.holds_modem(),
        (stage.awaited() == Task::ReadStatus || stage.awaited() == Task::CheckBattery
            || stage.awaited() == Task::PowerOn || stage.awaited() == Task::PowerOff)
            ==> stage.holds_modem(),
        (stage.awaited() == Task::ObservePhase || stage.awaited() == Task::Sleep(PAUSE)
            || stage.awaited() == Task::Record || stage.awaited() == Task::Exit)
            ==> !stage.holds_modem(),
{
}

/// The activity ends only on seeing that the mission has shut down, and
/// once ended it stays so.
pub proof fn lemma_ends_on_shut_down(outcomes: Seq<Outcome>)
    ensures
        stage_after(Battery::Observing, outcomes) == Battery::Ended ==> exists|k: int|
            0 <= k < outcomes.len() && outcomes[k] == Outcome::Phase(State::ShutDown),
        forall|outcome: Outcome| Battery::Ended.after(outcome) == Battery::Ended,
    decreases outcomes.len(),
{
    if outcomes.len() > 0 {
        let before = stage_after(Battery::Observing, outcomes.drop_last());
        lemma_ends_on_shut_down(outcomes.drop_last());
        if before == Battery::Ended {
            let k = choose|k: int|
                0 <= k < outcomes.drop_last().len() && outcomes.drop_last()[k] == Outcome::Phase(
                    State::ShutDown,
                );
            assert(outcomes[k] == Outcome::Phase(State::ShutDown));
        } else if before.after(outcomes.last()) == Battery::Ended {
            assert(outcomes[outcomes.len() - 1] == Outcome::Phase(State::ShutDown));
        }
    }
}

} // verus!
