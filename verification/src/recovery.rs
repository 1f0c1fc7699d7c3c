//! Safe mode: what the program does when an earlier run did not shut down
//! cleanly. It secures what helps to find the probe, reports the last
//! known position by text message, and only then clears the record of the
//! earlier run.

use vstd::prelude::*;
use vstd::string::*;
use crate::text::{join, occurs_at, contains};

verus! {

/// What safe mode asks its driver to do.
#[derive(Debug, Clone, Copy, PartialEq, Eq, Structural)]
pub enum Duty {
    /// Secure the logs and the last known position. Answer with
    /// `Report::Preserved`.
    PreserveArtifacts,
    /// Find out whether the modem can be reached. Answer with
    /// `Report::Reachable`.
    ProbeModem,
    /// Send the recovery message. Answer with `Report::Sent`.
    SendPosition,
    /// Remove the record of the earlier run. Answer with
    /// `Report::Cleared`.
    ClearRecord,
    /// Safe mode is over; `cleared` says whether the record is gone.
    Finish { cleared: bool },
}

/// What came of a duty; `true` means that it was done.
#[derive(Debug, Clone, Copy, PartialEq, Eq, Structural)]
pub enum Report {
    Preserved(bool),
    Reachable(bool),
    Sent(bool),
    Cleared(bool),
}

/// Where safe mode stands.
#[derive(Debug, Clone, Copy, PartialEq, Eq, Structural)]
pub enum Recovery {
    Preserving,
    Probing,
    Sending,
    Clearing,
    Over { cleared: bool },
}

impl Recovery {
    /// The duty that safe mode waits to be answered at this stage.
    pub open spec fn awaited(self) -> Duty {
        match self {
            Recovery::Preserving => Duty::PreserveArtifacts,
            Recovery::Probing => Duty::ProbeModem,
            Recovery::Sending => Duty::SendPosition,
            Recovery::Clearing => Duty::ClearRecord,
            Recovery::Over { cleared } => Duty::Finish { cleared },
        }
    }

    /// The stage after `report`. Each duty must be done for the next to be
    /// taken up; one that was not done ends safe mode with the record in
    /// place. A report that does not answer the awaited duty changes
    /// nothing.
    pub open spec fn after(self, report: Report) -> Recovery {
        match (self, report) {
            (Recovery::Preserving, Report::Preserved(true)) => Recovery::Probing,
            (Recovery::Preserving, Report::Preserved(false)) => Recovery::Over { cleared: false },
            (Recovery::Probing, Report::Reachable(true)) => Recovery::Sending,
            (Recovery::Probing, Report::Reachable(false)) => Recovery::Over { cleared: false },
            (Recovery::Sending, Report::Sent(true)) => Recovery::Clearing,
            (Recovery::Sending, Report::Sent(false)) => Recovery::Over { cleared: false },
            (Recovery::Clearing, Report::Cleared(cleared)) => Recovery::Over { cleared },
            (stage, _) => stage,
        }
    }

    /// Safe mode at its beginning, and its first duty.
    pub fn begin() -> (first: (Recovery, Duty))
        ensures
            first == (Recovery::Preserving, Duty::PreserveArtifacts),
    {
        (Recovery::Preserving, Duty::PreserveArtifacts)
    }

    /// The duty that safe mode waits to be answered at this stage.
    pub fn duty(self) -> (duty: Duty)
        ensures
            duty == self.awaited(),
    {
        match self {
            Recovery::Preserving => Duty::PreserveArtifacts,
            Recovery::Probing => Duty::ProbeModem,
            Recovery::Sending => Duty::SendPosition,
            Recovery::Clearing => Duty::ClearRecord,
            Recovery::Over { cleared } => Duty::Finish { cleared },
        }
    }

    /// Resumes safe mode with what came of its last duty, and gives the
    /// next duty.
    pub fn resume(self, report: Report) -> (next: (Recovery, Duty))
        ensures
            next.0 == self.after(report),
            next.1 == self.after(report).awaited(),
    {
        let stage = match (self, report) {
            (Recovery::Preserving, Report::Preserved(true)) => Recovery::Probing,
            (Recovery::Preserving, Report::Preserved(false)) => Recovery::Over { cleared: false },
            (Recovery::Probing, Report::Reachable(true)) => Recovery::Sending,
            (Recovery::Probing, Report::Reachable(false)) => Recovery::Over { cleared: false },
            (Recovery::Sending, Report::Sent(true)) => Recovery::Clearing,
            (Recovery::Sending, Report::Sent(false)) => Recovery::Over { cleared: false },
            (Recovery::Clearing, Report::Cleared(cleared)) => Recovery::Over { cleared },
            (stage, _) => stage,
        };
        (stage, stage.duty())
    }
}

/// The text of the recovery message for the last known position.
pub open spec fn recovery_message_of(position: Seq<char>) -> Seq<char> {
    "OpenStratos in safe mode. Last known position: "@ + position
}

/// The text of the recovery message for the last known position, which is
/// given as it is to be read.
pub fn recovery_message(position: &str) -> (message: String)
    ensures
        message@ == recovery_message_of(position@),
{
    join("OpenStratos in safe mode. Last known position: ", position)
}

/// The recovery message holds the last known position.
pub proof fn lemma_message_holds_position(position: Seq<char>)
    ensures
        contains(recovery_message_of(position), position),
{
    let lead = "OpenStratos in safe mode. Last known position: "@;
    let message = recovery_message_of(position);
    assert(message.subrange(lead.len() as int, lead.len() as int + position.len()) =~= position);
    assert(occurs_at(message, position, lead.len() as int));
}

/// The stage that safe mode reaches from `stage` as `reports` arrive.
pub open spec fn stage_after(stage: Recovery, reports: Seq<Report>) -> Recovery
    decreases reports.len(),
{
    if reports.len() == 0 {
        stage
    } else {
        stage_after(stage, reports.drop_last()).after(reports.last())
    }
}

/// How many of the three duties that come before the clearing of the
/// record are known to be done at a stage.
pub open spec fn duties_done(stage: Recovery) -> int {
    match stage {
        Recovery::Preserving => 0,
        Recovery::Probing => 1,
        Recovery::Sending => 2,
        Recovery::Clearing => 3,
        Recovery::Over { cleared: true } => 3,
        Recovery::Over { cleared: false } => 0,
    }
}

/// Whether the report at position `at` of `reports` is `report`.
pub open spec fn reported(reports: Seq<Report>, at: int, report: Report) -> bool {
    0 <= at < reports.len() && reports[at] == report
}

/// Whether `reports` holds, in this order, the news that the artifacts
/// were preserved, that the modem was reached and that the message was
/// sent, as far as the first `count` of the three go.
pub open spec fn done_in_order(reports: Seq<Report>, count: int) -> bool {
    if count <= 0 {
        true
    } else if count == 1 {
        exists|i: int| #[trigger] reported(reports, i, Report::Preserved(true))
    } else if count == 2 {
        exists|i: int, j: int|
            i < j && #[trigger] reported(reports, i, Report::Preserved(true)) && #[trigger] reported(
                reports,
                j,
                Report::Reachable(true),
            )
    } else {
        exists|i: int, j: int, k: int|
            i < j < k && #[trigger] reported(reports, i, Report::Preserved(true))
                && #[trigger] reported(reports, j, Report::Reachable(true)) && #[trigger] reported(
                reports,
                k,
                Report::Sent(true),
            )
    }
}

proof fn lemma_duties_in_order(reports: Seq<Report>)
    ensures
        done_in_order(reports, duties_done(stage_after(Recovery::Preserving, reports))),
    decreases reports.len(),
{
    if reports.len() > 0 {
        let head = reports.drop_last();
        let before = stage_after(Recovery::Preserving, head);
        let now = before.after(reports.last());
        let n = reports.len() - 1;
        lemma_duties_in_order(head);
        assert(forall|x: int, r: Report| reported(head, x, r) ==> reported(reports, x, r));
        if duties_done(now) == 0 {
        } else if duties_done(now) == duties_done(before) {
            if duties_done(now) == 1 {
                let i = choose|i: int| #[trigger] reported(head, i, Report::Preserved(true));
                assert(reported(reports, i, Report::Preserved(true)));
            } else if duties_done(now) == 2 {
                let (i, j) = choose|i: int, j: int|
                    i < j && #[trigger] reported(head, i, Report::Preserved(true))
                        && #[trigger] reported(head, j, Report::Reachable(true));
                assert(reported(reports, i, Report::Preserved(true)) && reported(
                    reports,
                    j,
                    Report::Reachable(true),
                ));
            } else {
                let (i, j, k) = choose|i: int, j: int, k: int|
                    i < j < k && #[trigger] reported(head, i, Report::Preserved(true))
                        && #[trigger] reported(head, j, Report::Reachable(true))
                        && #[trigger] reported(head, k, Report::Sent(true));
                assert(reported(reports, i, Report::Preserved(true)) && reported(
                    reports,
                    j,
                    Report::Reachable(true),
                ) && reported(reports, k, Report::Sent(true)));
            }
        } else if duties_done(now) == 1 {
            assert(reported(reports, n, Report::Preserved(true)));
        } else if duties_done(now) == 2 {
            let i = choose|i: int| #[trigger] reported(head, i, Report::Preserved(true));
            assert(reported(reports, i, Report::Preserved(true)) && reported(
                reports,
                n,
                Report::Reachable(true),
            ));
        } else {
            let (i, j) = choose|i: int, j: int|
                i < j && #[trigger] reported(head, i, Report::Preserved(true))
                    && #[trigger] reported(head, j, Report::Reachable(true));
            assert(reported(reports, i, Report::Preserved(true)) && reported(
                reports,
                j,
                Report::Reachable(true),
            ) && reported(reports, n, Report::Sent(true)));
        }
    }
}

/// The record of the earlier run is cleared only after everything else
/// was done: whenever safe mode asks for the record to be removed, or ends
/// with the record gone, the artifacts were preserved, then the modem was
/// reached, then the recovery message was sent.
pub proof fn lemma_record_cleared_last(reports: Seq<Report>)
    ensures
        ({
            let stage = stage_after(Recovery::Preserving, reports);
            stage.awaited() == Duty::ClearRecord || stage.awaited() == (Duty::Finish {
                cleared: true,
            }) ==> done_in_order(reports, 3)
        }),
{
    lemma_duties_in_order(reports);
}

} // verus!
