//! What holds of every run of a modem operation, whatever the modem and
//! the serial line do.

use vstd::prelude::*;
use vstd::string::*;
use crate::gsm::reply::registered;
use crate::gsm::session::{
    access_point_command, begin_battery, begin_connectivity, begin_location, begin_sms,
    close_bearer, step, transact, GsmView, Stage, SMS_MAX_CHARS,
};
use crate::gsm::types::{ActionView, ErrorKind, EventView, GsmError, ReplyView};

verus! {

/// The actions that the session `g` asks for as `events` arrive one by
/// one, up to the end of the operation under way.
pub open spec fn actions_after(g: GsmView, events: Seq<EventView>) -> Seq<ActionView>
    decreases events.len(),
{
    if events.len() == 0 {
        Seq::empty()
    } else {
        let (next, action) = step(g, events[0]);
        if action is Finish {
            seq![action]
        } else {
            seq![action] + actions_after(next, events.drop_first())
        }
    }
}

/// All the actions of an operation that began with `begin`.
pub open spec fn run(begin: (GsmView, ActionView), events: Seq<EventView>) -> Seq<ActionView> {
    if begin.1 is Finish {
        seq![begin.1]
    } else {
        seq![begin.1] + actions_after(begin.0, events)
    }
}

/// How often `action` stands in `actions`.
pub open spec fn occurrences(actions: Seq<ActionView>, action: ActionView) -> nat
    decreases actions.len(),
{
    if actions.len() == 0 {
        0
    } else {
        occurrences(actions.drop_first(), action) + if actions[0] == action {
            1nat
        } else {
            0nat
        }
    }
}

/// Whether an action reads from the serial line or writes to it.
pub open spec fn on_serial_line(action: ActionView) -> bool {
    action is Transact || action is WriteLine || action is WriteByte || action is Drain
        || action is ReadLine
}

/// A message of more than 160 characters is refused before anything is
/// done: the operation consists of its refusal alone, so nothing reaches
/// the serial line, and the refusal is a failed precondition — that the
/// modem is off, if the status pin reads off, else that the message is too
/// long.
pub proof fn lemma_long_message_refused(
    g: GsmView,
    on: bool,
    message: Seq<char>,
    number: Seq<char>,
    events: Seq<EventView>,
)
    requires
        message.len() > SMS_MAX_CHARS,
    ensures
        run(begin_sms(g, on, message, number), events) == seq![
            ActionView::Finish(
                Err(
                    if on {
                        GsmError::MessageTooLong
                    } else {
                        GsmError::Off
                    },
                ),
            ),
        ],
        forall|k: int|
            0 <= k < run(begin_sms(g, on, message, number), events).len() ==> !on_serial_line(
                #[trigger] run(begin_sms(g, on, message, number), events)[k],
            ),
        GsmError::MessageTooLong.kind_of() == ErrorKind::InvalidInput,
        GsmError::Off.kind_of() == ErrorKind::BrokenPipe,
{
}

/// While the status pin reads off, every operation that needs the modem is
/// refused with `Off` before anything is done.
pub proof fn lemma_off_refused(
    g: GsmView,
    message: Seq<char>,
    number: Seq<char>,
    events: Seq<EventView>,
)
    ensures
        run(begin_connectivity(g, false), events) == seq![ActionView::Finish(Err(GsmError::Off))],
        run(begin_sms(g, false, message, number), events) == seq![
            ActionView::Finish(Err(GsmError::Off)),
        ],
        run(begin_battery(g, false), events) == seq![ActionView::Finish(Err(GsmError::Off))],
        run(begin_location(g, false), events) == seq![ActionView::Finish(Err(GsmError::Off))],
{
}

/// A connectivity check on a modem that is on asks `AT+CREG?` and reports
/// a registration exactly if the second line of the answer is
/// `+CREG: 0,1` or `+CREG: 0,5`.
pub proof fn lemma_connectivity(g: GsmView, lines: Seq<Seq<char>>)
    ensures
        run(begin_connectivity(g, true), seq![EventView::Lines(lines)]) == seq![
            transact("AT+CREG?"@, 0),
            ActionView::Finish(Ok(ReplyView::Registered(registered(lines)))),
        ],
        registered(lines) <==> lines.len() >= 2 && (lines[1] == "+CREG: 0,1"@ || lines[1]
            == "+CREG: 0,5"@),
{
    let begin = begin_connectivity(g, true);
    let events = seq![EventView::Lines(lines)];
    assert(actions_after(begin.0, events) == seq![
        ActionView::Finish(Ok(ReplyView::Registered(registered(lines)))),
    ]);
    assert(seq![transact("AT+CREG?"@, 0)] + seq![
        ActionView::Finish(Ok(ReplyView::Registered(registered(lines)))),
    ] =~= seq![
        transact("AT+CREG?"@, 0),
        ActionView::Finish(Ok(ReplyView::Registered(registered(lines)))),
    ]);
}

/// No command of a location query but the last is the one that closes the
/// bearer.
proof fn lemma_close_bearer_is_distinct()
    ensures
        transact("AT+CGATT=1"@, 0) != close_bearer(),
        transact("AT+SAPBR=3,1,\"CONTYPE\",\"GPRS\""@, 0) != close_bearer(),
        transact(access_point_command(), 0) != close_bearer(),
        forall|patience: u64| transact("AT+SAPBR=1,1"@, patience) != close_bearer(),
        forall|patience: u64| transact("AT+CIPGSMLOC=1,1"@, patience) != close_bearer(),
{
    reveal_strlit("AT+SAPBR=0,1");
    reveal_strlit("AT+CGATT=1");
    reveal_strlit("AT+SAPBR=3,1,\"CONTYPE\",\"GPRS\"");
    reveal_strlit("AT+SAPBR=3,1,\"APN\",\"");
    reveal_strlit("AT+SAPBR=1,1");
    reveal_strlit("AT+CIPGSMLOC=1,1");
    assert("AT+SAPBR=0,1"@.len() == 12);
    assert("AT+CGATT=1"@.len() == 10);
    assert("AT+SAPBR=3,1,\"CONTYPE\",\"GPRS\""@.len() == 29);
    assert(access_point_command().len() > 12);
    assert("AT+SAPBR=1,1"@[9] == '1' && "AT+SAPBR=0,1"@[9] == '0');
    assert("AT+CIPGSMLOC=1,1"@.len() == 16);
}

proof fn lemma_occurrences_of_pair(first: ActionView, rest: Seq<ActionView>, action: ActionView)
    ensures
        occurrences(seq![first] + rest, action) == occurrences(rest, action) + if first == action {
            1nat
        } else {
            0nat
        },
{
    assert((seq![first] + rest).drop_first() =~= rest);
}

/// From any stage of a location query, a run that comes to its end has
/// closed the bearer as often as is still due: once if the closing command
/// is not out yet, and then as the last action before the end; never again
/// if it is out.
proof fn lemma_bearer_closed(g: GsmView, events: Seq<EventView>)
    requires
        g.stage.in_bearer() || g.stage == Stage::Close,
    ensures
        ({
            let actions = actions_after(g, events);
            actions.len() > 0 && actions.last() is Finish ==> {
                &&& g.stage == Stage::Close ==> actions.len() == 1 && occurrences(
                    actions,
                    close_bearer(),
                ) == 0
                &&& g.stage != Stage::Close ==> actions.len() >= 2 && actions[actions.len() - 2]
                    == close_bearer() && occurrences(actions, close_bearer()) == 1
            }
        }),
    decreases events.len(),
{
    lemma_close_bearer_is_distinct();
    if events.len() > 0 {
        let (next, action) = step(g, events[0]);
        let rest = actions_after(next, events.drop_first());
        if action is Finish {
            assert(g.stage == Stage::Close);
            lemma_occurrences_of_pair(action, Seq::empty(), close_bearer());
            assert(seq![action] + Seq::<ActionView>::empty() =~= seq![action]);
        } else {
            assert(g.stage.in_bearer());
            lemma_bearer_closed(next, events.drop_first());
            lemma_occurrences_of_pair(action, rest, close_bearer());
            let actions = seq![action] + rest;
            if rest.len() > 0 && rest.last() is Finish {
                assert(actions.last() == rest.last());
                if next.stage == Stage::Close {
                    assert(action == close_bearer());
                    assert(actions[actions.len() - 2] == action);
                } else {
                    assert(action != close_bearer());
                    assert(actions[actions.len() - 2] == rest[rest.len() - 2]);
                }
            }
        }
    }
}

/// A location query on a modem that is on closes the bearer exactly once
/// in every run that comes to its end, and does so as its last action
/// before the end. This holds in particular of every run that ends in a
/// failure, whichever step failed and however: the command that closes the
/// bearer has been sent once before the failure is handed back.
pub proof fn lemma_location_closes_bearer_once(g: GsmView, events: Seq<EventView>)
    ensures
        ({
            let actions = run(begin_location(g, true), events);
            actions.last() is Finish ==> {
                &&& occurrences(actions, close_bearer()) == 1
                &&& actions.len() >= 3
                &&& actions[actions.len() - 2] == close_bearer()
            }
        }),
{
    lemma_close_bearer_is_distinct();
    let begin = begin_location(g, true);
    let rest = actions_after(begin.0, events);
    lemma_bearer_closed(begin.0, events);
    lemma_occurrences_of_pair(begin.1, rest, close_bearer());
    let actions = seq![begin.1] + rest;
    if rest.len() > 0 {
        assert(actions.last() == rest.last());
        if rest.last() is Finish {
            assert(actions[actions.len() - 2] == rest[rest.len() - 2]);
        }
    } else {
        assert(actions.last() == begin.1);
    }
}

/// The most events that an operation can still take up at a stage.
pub open spec fn events_left(stage: Stage) -> nat {
    match stage {
        Stage::Idle => 1,
        Stage::Simulated => 1,
        Stage::TextMode => 7,
        Stage::Prompt => 6,
        Stage::Body => 5,
        Stage::Echo => 4,
        Stage::Submit => 3,
        Stage::Report => 2,
        Stage::Final => 1,
        Stage::Registration => 1,
        Stage::ModemCell => 2,
        Stage::Adc => 1,
        Stage::PulseLow => 5,
        Stage::PulseHold => 4,
        Stage::PulseHigh => 3,
        Stage::PulseSettle => 2,
        Stage::Readback => 1,
        Stage::Attach => 6,
        Stage::ConnectionType => 5,
        Stage::AccessPoint => 4,
        Stage::OpenBearer => 3,
        Stage::Locate => 2,
        Stage::Close => 1,
    }
}

/// Every operation comes to its end: whatever the events are, each of
/// them ends the operation or brings it a stage nearer to its end, so that
/// no operation takes up more than seven events.
pub proof fn lemma_operation_ends(g: GsmView, events: Seq<EventView>)
    requires
        events.len() >= events_left(g.stage),
    ensures
        actions_after(g, events).len() > 0,
        actions_after(g, events).last() is Finish,
        actions_after(g, events).len() <= events_left(g.stage) <= 7,
    decreases events.len(),
{
    let (next, action) = step(g, events[0]);
    if !(action is Finish) {
        assert(events_left(next.stage) < events_left(g.stage));
        let rest = actions_after(next, events.drop_first());
        lemma_operation_ends(next, events.drop_first());
        assert((seq![action] + rest).last() == rest.last());
    }
}

} // verus!
