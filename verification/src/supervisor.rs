//! The activity supervisor: the order in which the program is brought up,
//! flown and brought down.

use vstd::prelude::*;
use crate::state::State;

verus! {

/// The long-lived activities that run beside the flight.
#[derive(Debug, Clone, Copy, PartialEq, Eq, Structural)]
pub enum Activity {
    System,
    Battery,
    Pictures,
}

/// What the supervisor asks its driver to do. All but `Join` are answered
/// with `Feedback::Done` or `Feedback::Failed`.
#[derive(Debug, Clone, Copy, PartialEq, Eq, Structural)]
pub enum Order {
    /// Create every missing directory of `directories`, in that order.
    PrepareDirectories,
    /// Write the phase to the durable record and make it the shared phase.
    Transition(State),
    /// Install the main log.
    InstallLog,
    /// Open the modem session.
    OpenModem,
    /// Start the activity.
    Spawn(Activity),
    /// Run the flight, from the first fix to the landing.
    Fly,
    /// Wait for the activity to end. Answer with `Feedback::Joined`.
    Join(Activity),
    /// Record in the log that the activity panicked.
    ReportPanic(Activity),
    /// The program is done.
    Finish,
    /// The program cannot go on. It ends at once and leaves the durable
    /// record in place, so that the next start recovers.
    Abort,
}

/// What came of an order.
#[derive(Debug, Clone, Copy, PartialEq, Eq, Structural)]
pub enum Feedback {
    Done,
    Failed,
    /// The activity has ended; `clean` is false if it panicked.
    Joined { clean: bool },
}

/// Where the supervisor stands: the order that it waits to be answered.
#[derive(Debug, Clone, Copy, PartialEq, Eq, Structural)]
pub enum Supervisor {
    Directories,
    Initializing,
    Log,
    Spawning(Activity),
    Modem,
    Acquiring,
    Flying,
    ShuttingDown,
    Joining(Activity),
    Reporting(Activity),
    Finished,
    Aborted,
}

/// The directories of the program, each after the one that holds it.
pub open spec fn directory_names() -> Seq<Seq<char>> {
    seq![
        "data"@,
        "data/logs"@,
        "data/logs/main"@,
        "data/logs/system"@,
        "data/logs/camera"@,
        "data/logs/GPS"@,
        "data/logs/GSM"@,
    ]
}

/// The directories of the program, in the order in which they are to be
/// created.
pub fn directories() -> (list: Vec<&'static str>)
    ensures
        list@.len() == directory_names().len(),
        forall|k: int| 0 <= k < list@.len() ==> (#[trigger] list@[k])@ == directory_names()[k],
{
    let mut list: Vec<&'static str> = Vec::new();
    list.push("data");
    list.push("data/logs");
    list.push("data/logs/main");
    list.push("data/logs/system");
    list.push("data/logs/camera");
    list.push("data/logs/GPS");
    list.push("data/logs/GSM");
    list
}

impl Supervisor {
    /// The order that the supervisor waits to be answered at this stage.
    pub open spec fn awaited(self) -> Order {
        match self {
            Supervisor::Directories => Order::PrepareDirectories,
            Supervisor::Initializing => Order::Transition(State::Initializing),
            Supervisor::Log => Order::InstallLog,
            Supervisor::Spawning(activity) => Order::Spawn(activity),
            Supervisor::Modem => Order::OpenModem,
            Supervisor::Acquiring => Order::Transition(State::AcquiringFix),
            Supervisor::Flying => Order::Fly,
            Supervisor::ShuttingDown => Order::Transition(State::ShutDown),
            Supervisor::Joining(activity) => Order::Join(activity),
            Supervisor::Reporting(activity) => Order::ReportPanic(activity),
            Supervisor::Finished => Order::Finish,
            Supervisor::Aborted => Order::Abort,
        }
    }

    /// Whether the supervisor is bringing the activities down.
    pub open spec fn is_joining(self) -> bool {
        self is Joining || self is Reporting
    }

    /// The stage that follows the stage of bringing up or flying, once its
    /// order is done.
    pub open spec fn onward(self) -> Supervisor {
        match self {
            Supervisor::Directories => Supervisor::Initializing,
            Supervisor::Initializing => Supervisor::Log,
            Supervisor::Log => Supervisor::Spawning(Activity::System),
            Supervisor::Spawning(Activity::System) => Supervisor::Modem,
            Supervisor::Modem => Supervisor::Spawning(Activity::Battery),
            Supervisor::Spawning(Activity::Battery) => Supervisor::Spawning(Activity::Pictures),
            Supervisor::Spawning(Activity::Pictures) => Supervisor::Acquiring,
            Supervisor::Acquiring => Supervisor::Flying,
            Supervisor::Flying => Supervisor::ShuttingDown,
            Supervisor::ShuttingDown => Supervisor::Joining(Activity::Pictures),
            stage => stage,
        }
    }

    /// The stage once the end of `activity` has been dealt with.
    pub open spec fn joined(activity: Activity) -> Supervisor {
        match activity {
            Activity::Pictures => Supervisor::Joining(Activity::Battery),
            Activity::Battery => Supervisor::Joining(Activity::System),
            Activity::System => Supervisor::Finished,
        }
    }

    /// The stage after `feedback`.
    ///
    /// While the program is brought up and flown, an order that is done
    /// leads to the next and an order that failed ends the program. While
    /// the activities are brought down nothing ends the program: an
    /// activity that panicked, or that could not be waited for, is
    /// reported, and the next one is joined. A feedback that does not
    /// answer the awaited order changes nothing.
    pub open spec fn after(self, feedback: Feedback) -> Supervisor {
        match (self, feedback) {
            (Supervisor::Finished, _) => Supervisor::Finished,
            (Supervisor::Aborted, _) => Supervisor::Aborted,
            (Supervisor::Joining(activity), Feedback::Joined { clean: true }) => Self::joined(
                activity,
            ),
            (Supervisor::Joining(activity), Feedback::Joined { clean: false }) =>
                Supervisor::Reporting(activity),
            (Supervisor::Joining(activity), Feedback::Failed) => Supervisor::Reporting(activity),
            (Supervisor::Joining(activity), Feedback::Done) => Supervisor::Joining(activity),
            (Supervisor::Reporting(activity), Feedback::Joined { .. }) => Supervisor::Reporting(
                activity,
            ),
            (Supervisor::Reporting(activity), _) => Self::joined(activity),
            (stage, Feedback::Done) => stage.onward(),
            (_, Feedback::Failed) => Supervisor::Aborted,
            (stage, Feedback::Joined { .. }) => stage,
        }
    }

    /// The supervisor at its beginning, and its first order.
    pub fn begin() -> (first: (Supervisor, Order))
        ensures
            first == (Supervisor::Directories, Order::PrepareDirectories),
    {
        (Supervisor::Directories, Order::PrepareDirectories)
    }

    /// The order that the supervisor waits to be answered at this stage.
    pub fn order(self) -> (order: Order)
        ensures
            order == self.awaited(),
    {
        match self {
            Supervisor::Directories => Order::PrepareDirectories,
            Supervisor::Initializing => Order::Transition(State::Initializing),
            Supervisor::Log => Order::InstallLog,
            Supervisor::Spawning(activity) => Order::Spawn(activity),
            Supervisor::Modem => Order::OpenModem,
            Supervisor::Acquiring => Order::Transition(State::AcquiringFix),
            Supervisor::Flying => Order::Fly,
            Supervisor::ShuttingDown => Order::Transition(State::ShutDown),
            Supervisor::Joining(activity) => Order::Join(activity),
            Supervisor::Reporting(activity) => Order::ReportPanic(activity),
            Supervisor::Finished => Order::Finish,
            Supervisor::Aborted => Order::Abort,
        }
    }

    fn next_stage(self) -> (next: Supervisor)
        ensures
            next == self.onward(),
    {
        match self {
            Supervisor::Directories => Supervisor::Initializing,
            Supervisor::Initializing => Supervisor::Log,
            Supervisor::Log => Supervisor::Spawning(Activity::System),
            Supervisor::Spawning(Activity::System) => Supervisor::Modem,
            Supervisor::Modem => Supervisor::Spawning(Activity::Battery),
            Supervisor::Spawning(Activity::Battery) => Supervisor::Spawning(Activity::Pictures),
            Supervisor::Spawning(Activity::Pictures) => Supervisor::Acquiring,
            Supervisor::Acquiring => Supervisor::Flying,
            Supervisor::Flying => Supervisor::ShuttingDown,
            Supervisor::ShuttingDown => Supervisor::Joining(Activity::Pictures),
            stage => stage,
        }
    }

    fn next_join(activity: Activity) -> (next: Supervisor)
        ensures
            next == Self::joined(activity),
    {
        match activity {
            Activity::Pictures => Supervisor::Joining(Activity::Battery),
            Activity::Battery => Supervisor::Joining(Activity::System),
            Activity::System => Supervisor::Finished,
        }
    }

    /// Resumes the supervisor with what came of its last order, and gives
    /// the next order.
    pub fn resume(self, feedback: Feedback) -> (next: (Supervisor, Order))
        ensures
            next.0 == self.after(feedback),
            next.1 == self.after(feedback).awaited(),
    {
        let stage = match (self, feedback) {
            (Supervisor::Finished, _) => Supervisor::Finished,
            (Supervisor::Aborted, _) => Supervisor::Aborted,
            (Supervisor::Joining(activity), Feedback::Joined { clean: true }) => Self::next_join(
                activity,
            ),
            (Supervisor::Joining(activity), Feedback::Joined { clean: false }) =>
                Supervisor::Reporting(activity),
            (Supervisor::Joining(activity), Feedback::Failed) => Supervisor::Reporting(activity),
            (Supervisor::Joining(activity), Feedback::Done) => Supervisor::Joining(activity),
            (Supervisor::Reporting(activity), Feedback::Joined { .. }) => Supervisor::Reporting(
                activity,
            ),
            (Supervisor::Reporting(activity), _) => Self::next_join(activity),
            (stage, Feedback::Done) => stage.next_stage(),
            (_, Feedback::Failed) => Supervisor::Aborted,
            (stage, Feedback::Joined { .. }) => stage,
        };
        (stage, stage.order())
    }
}

/// The stage that the supervisor reaches from `stage` as `feedback`
/// arrives.
pub open spec fn stage_after(stage: Supervisor, feedback: Seq<Feedback>) -> Supervisor
    decreases feedback.len(),
{
    if feedback.len() == 0 {
        stage
    } else {
        stage_after(stage, feedback.drop_last()).after(feedback.last())
    }
}

/// The stage once the end of `activity`, clean or not, has been dealt
/// with: a clean end needs nothing more, a panic is reported first.
pub open spec fn dealt_with(activity: Activity, clean: bool) -> Supervisor {
    if clean {
        Supervisor::Joining(activity).after(Feedback::Joined { clean })
    } else {
        Supervisor::Joining(activity).after(Feedback::Joined { clean }).after(Feedback::Done)
    }
}

/// A panic of one activity does not keep the supervisor from joining the
/// others: however each of the three ends, the supervisor joins the
/// pictures, then the battery, then the system activity, and finishes. A
/// panic is reported to the log before the next activity is joined.
pub proof fn lemma_joins_every_activity(pictures: bool, battery: bool, system: bool)
    ensures
        dealt_with(Activity::Pictures, pictures) == Supervisor::Joining(Activity::Battery),
        dealt_with(Activity::Battery, battery) == Supervisor::Joining(Activity::System),
        dealt_with(Activity::System, system) == Supervisor::Finished,
        forall|activity: Activity|
            (#[trigger] Supervisor::Joining(activity).after(Feedback::Joined { clean: false }))
                .awaited() == Order::ReportPanic(activity),
{
}

/// Once the activities are being brought down the program is never
/// aborted, whatever comes back.
pub proof fn lemma_no_abort_while_joining(stage: Supervisor, feedback: Seq<Feedback>)
    requires
        stage.is_joining() || stage == Supervisor::Finished,
    ensures
        stage_after(stage, feedback).is_joining() || stage_after(stage, feedback)
            == Supervisor::Finished,
    decreases feedback.len(),
{
    if feedback.len() > 0 {
        lemma_no_abort_while_joining(stage, feedback.drop_last());
    }
}

/// The activities are joined only after the shut-down has been made
/// durable, and the flight begins only after the phase `AcquiringFix` has:
/// each stage is reached from the one before it by an order that was done.
pub proof fn lemma_order_of_stages(stage: Supervisor, feedback: Feedback)
    ensures
        stage.after(feedback) == Supervisor::Joining(Activity::Pictures) && stage
            != Supervisor::Joining(Activity::Pictures) ==> stage.awaited() == Order::Transition(
            State::ShutDown,
        ) && feedback == Feedback::Done,
        stage.after(feedback) == Supervisor::Flying && stage != Supervisor::Flying
            ==> stage.awaited() == Order::Transition(State::AcquiringFix) && feedback
            == Feedback::Done,
        stage.after(feedback) == Supervisor::Aborted && stage != Supervisor::Aborted ==> feedback
            == Feedback::Failed && !stage.is_joining(),
{
}

} // verus!
