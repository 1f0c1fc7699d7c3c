//! The flight phases, their textual record, and the rules by which the
//! mission moves from one phase to the next.

use vstd::prelude::*;
use vstd::string::*;
use crate::error::Error;
use crate::text::{
    is_space, lemma_leading_spaces_is, lemma_trailing_spaces_is, same_text, trim, trim_text,
};

verus! {

/// Phase of the mission.
///
/// The first eight phases follow one another in the order written here.
/// `SafeMode` stands apart: it is the recovery phase, entered from any
/// phase that is still running.
#[derive(Debug, Clone, Copy, PartialEq, Eq, Structural)]
pub enum State {
    Initializing,
    AcquiringFix,
    FixAcquired,
    WaitingLaunch,
    GoingUp,
    GoingDown,
    Landed,
    ShutDown,
    SafeMode,
}

/// A text that names no phase.
#[derive(Debug)]
pub struct ParseStateError {
    description: String,
}

impl ParseStateError {
    /// What the error says of the rejected text `s`.
    pub open spec fn message(s: Seq<char>) -> Seq<char> {
        "Could not parse "@ + s + " as a valid State"@
    }

    /// The text of this error.
    pub closed spec fn view(&self) -> Seq<char> {
        self.description@
    }

    /// The error for the rejected text `s`.
    pub fn new(s: &str) -> (e: ParseStateError)
        ensures
            e@ == Self::message(s@),
    {
        let description: String = String::from_str("Could not parse ").concat(s).concat(
            " as a valid State",
        );
        ParseStateError { description }
    }

    /// The text of this error.
    pub fn description(&self) -> (text: &str)
        ensures
            text@ == self@,
    {
        self.description.as_str()
    }
}

impl State {
    /// Position of the phase in the mission's order. The recovery phase
    /// comes after all the others.
    pub open spec fn rank(self) -> nat {
        match self {
            State::Initializing => 0,
            State::AcquiringFix => 1,
            State::FixAcquired => 2,
            State::WaitingLaunch => 3,
            State::GoingUp => 4,
            State::GoingDown => 5,
            State::Landed => 6,
            State::ShutDown => 7,
            State::SafeMode => 8,
        }
    }

    /// The phases from which the mission moves no further.
    pub open spec fn is_terminal(self) -> bool {
        self == State::ShutDown || self == State::SafeMode
    }

    /// Whether the mission may move from `self` to `next`: never out of a
    /// terminal phase; otherwise forward in the order, or into the recovery
    /// phase.
    pub open spec fn may_become(self, next: State) -> bool {
        !self.is_terminal() && (next == State::SafeMode || self.rank() < next.rank())
    }

    /// The name of the phase, as it stands in the durable record.
    pub open spec fn name(self) -> Seq<char> {
        match self {
            State::Initializing => "Initializing"@,
            State::AcquiringFix => "AcquiringFix"@,
            State::FixAcquired => "FixAcquired"@,
            State::WaitingLaunch => "WaitingLaunch"@,
            State::GoingUp => "GoingUp"@,
            State::GoingDown => "GoingDown"@,
            State::Landed => "Landed"@,
            State::ShutDown => "ShutDown"@,
            State::SafeMode => "SafeMode"@,
        }
    }

    /// The phase that `s` names, if it names one.
    pub open spec fn parse(s: Seq<char>) -> Option<State> {
        if s == "Initializing"@ {
            Some(State::Initializing)
        } else if s == "AcquiringFix"@ {
            Some(State::AcquiringFix)
        } else if s == "FixAcquired"@ {
            Some(State::FixAcquired)
        } else if s == "WaitingLaunch"@ {
            Some(State::WaitingLaunch)
        } else if s == "GoingUp"@ {
            Some(State::GoingUp)
        } else if s == "GoingDown"@ {
            Some(State::GoingDown)
        } else if s == "Landed"@ {
            Some(State::Landed)
        } else if s == "ShutDown"@ {
            Some(State::ShutDown)
        } else if s == "SafeMode"@ {
            Some(State::SafeMode)
        } else {
            None
        }
    }

    /// Position of the phase in the mission's order.
    pub fn order(self) -> (rank: u8)
        ensures
            rank == self.rank(),
    {
        match self {
            State::Initializing => 0,
            State::AcquiringFix => 1,
            State::FixAcquired => 2,
            State::WaitingLaunch => 3,
            State::GoingUp => 4,
            State::GoingDown => 5,
            State::Landed => 6,
            State::ShutDown => 7,
            State::SafeMode => 8,
        }
    }

    /// Whether the mission may move from `self` to `next`.
    pub fn can_become(self, next: State) -> (allowed: bool)
        ensures
            allowed == self.may_become(next),
    {
        match self {
            State::ShutDown | State::SafeMode => false,
            _ => match next {
                State::SafeMode => true,
                _ => self.order() < next.order(),
            },
        }
    }

    /// The text written to the durable record for this phase.
    pub fn record(self) -> (text: &'static str)
        ensures
            text@ == self.name(),
    {
        match self {
            State::Initializing => "Initializing",
            State::AcquiringFix => "AcquiringFix",
            State::FixAcquired => "FixAcquired",
            State::WaitingLaunch => "WaitingLaunch",
            State::GoingUp => "GoingUp",
            State::GoingDown => "GoingDown",
            State::Landed => "Landed",
            State::ShutDown => "ShutDown",
            State::SafeMode => "SafeMode",
        }
    }

    /// Reads a phase name. The nine names are accepted verbatim and nothing
    /// else is.
    pub fn from_str(s: &str) -> (parsed: Result<State, ParseStateError>)
        ensures
            match parsed {
                Ok(state) => State::parse(s@) == Some(state),
                Err(e) => State::parse(s@) is None && e@ == ParseStateError::message(s@),
            },
    {
        if same_text(s, "Initializing") {
            Ok(State::Initializing)
        } else if same_text(s, "AcquiringFix") {
            Ok(State::AcquiringFix)
        } else if same_text(s, "FixAcquired") {
            Ok(State::FixAcquired)
        } else if same_text(s, "WaitingLaunch") {
            Ok(State::WaitingLaunch)
        } else if same_text(s, "GoingUp") {
            Ok(State::GoingUp)
        } else if same_text(s, "GoingDown") {
            Ok(State::GoingDown)
        } else if same_text(s, "Landed") {
            Ok(State::Landed)
        } else if same_text(s, "ShutDown") {
            Ok(State::ShutDown)
        } else if same_text(s, "SafeMode") {
            Ok(State::SafeMode)
        } else {
            Err(ParseStateError::new(s))
        }
    }
}

impl State {
    /// Loads the last phase from the outcome `read` of reading the durable
    /// record. A failed read is handed on. Otherwise the white space around
    /// the content is dropped and the rest is read as a phase name.
    pub fn get_last(read: Result<String, std::io::Error>) -> (last: Result<State, Error>)
        ensures
            match (read, last) {
                (Err(e), Err(Error::IOError(f))) => e == f,
                (Ok(content), Ok(state)) => State::parse(trim(content@)) == Some(state),
                (Ok(content), Err(Error::ParseStateError(e))) => {
                    &&& State::parse(trim(content@)) is None
                    &&& e@ == ParseStateError::message(trim(content@))
                },
                _ => false,
            },
    {
        match read {
            Err(e) => Err(Error::from(e)),
            Ok(content) => {
                let name: String = trim_text(content.as_str());
                match State::from_str(name.as_str()) {
                    Ok(state) => Ok(state),
                    Err(e) => Err(Error::from(e)),
                }
            },
        }
    }

    /// Completes a transition to a new phase, given the outcome `persisted`
    /// of writing that phase to the durable record. The shared phase is
    /// replaced only by a phase whose record has been written: if the write
    /// failed, the shared phase stays as it is and the failure is handed on.
    pub fn modify_shared(persisted: Result<State, std::io::Error>, shared: &mut State) -> (done:
        Result<State, std::io::Error>)
        ensures
            done == persisted,
            *final(shared) == match persisted {
                Ok(state) => state,
                Err(_) => *old(shared),
            },
    {
        match persisted {
            Err(e) => Err(e),
            Ok(state) => {
                *shared = state;
                Ok(state)
            },
        }
    }
}

/// Whether every step of `path` is a move that the mission may make.
pub open spec fn legal_path(path: Seq<State>) -> bool {
    forall|k: int| 0 <= k < path.len() - 1 ==> (#[trigger] path[k]).may_become(path[k + 1])
}

/// Along any sequence of legal moves the mission never goes back: a later
/// phase is the recovery phase, or it stands after every earlier one in the
/// mission's order. Nothing follows the recovery phase.
pub proof fn lemma_no_backward_movement(path: Seq<State>, i: int, j: int)
    requires
        legal_path(path),
        0 <= i < j < path.len(),
    ensures
        path[j] == State::SafeMode || path[i].rank() < path[j].rank(),
        path[i] != State::SafeMode,
        path[i].rank() < path[j].rank(),
    decreases j - i,
{
    assert(path[j - 1].may_become(path[j]));
    if i < j - 1 {
        lemma_no_backward_movement(path, i, j - 1);
    }
}

/// A phase's name reads back as that phase.
pub proof fn lemma_name_parses(state: State)
    ensures
        State::parse(state.name()) == Some(state),
{
    reveal_strlit("Initializing");
    reveal_strlit("AcquiringFix");
    reveal_strlit("FixAcquired");
    reveal_strlit("WaitingLaunch");
    reveal_strlit("GoingUp");
    reveal_strlit("GoingDown");
    reveal_strlit("Landed");
    reveal_strlit("ShutDown");
    reveal_strlit("SafeMode");
    let a = "Initializing"@;
    let b = "AcquiringFix"@;
    let c = "FixAcquired"@;
    let d = "WaitingLaunch"@;
    let e = "GoingUp"@;
    let f = "GoingDown"@;
    let g = "Landed"@;
    let h = "ShutDown"@;
    let i = "SafeMode"@;
    assert(a[0] == 'I' && b[0] == 'A' && c[0] == 'F' && d[0] == 'W' && e[0] == 'G' && f[0] == 'G'
        && g[0] == 'L' && h[0] == 'S' && i[0] == 'S');
    assert(e.len() == 7 && f.len() == 9);
    assert(h[1] == 'h' && i[1] == 'a');
}

/// Only a phase's own name reads as that phase.
pub proof fn lemma_parse_is_name(s: Seq<char>, state: State)
    requires
        State::parse(s) == Some(state),
    ensures
        s == state.name(),
{
}

/// What is written to the durable record for a phase is read back as that
/// phase when the last phase is loaded.
pub proof fn lemma_record_reads_back(state: State)
    ensures
        trim(state.name()) == state.name(),
        State::parse(trim(state.name())) == Some(state),
{
    reveal_strlit("Initializing");
    reveal_strlit("AcquiringFix");
    reveal_strlit("FixAcquired");
    reveal_strlit("WaitingLaunch");
    reveal_strlit("GoingUp");
    reveal_strlit("GoingDown");
    reveal_strlit("Landed");
    reveal_strlit("ShutDown");
    reveal_strlit("SafeMode");
    let name = state.name();
    assert(name.len() >= 6);
    assert(!is_space(name[0]) && !is_space(name[name.len() - 1]));
    lemma_leading_spaces_is(name, 0);
    assert(name.subrange(0, name.len() as int) =~= name);
    lemma_trailing_spaces_is(name, 0);
    lemma_name_parses(state);
}

} // verus!
