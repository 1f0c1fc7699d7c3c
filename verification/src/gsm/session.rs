//! The modem session: every operation of the modem as a sequence of
//! actions on the serial line and the pins, decided one action at a time.
//!
//! An operation is begun with what the status pin reads and gives the first
//! action. The driver carries the action out and resumes the session with
//! the event that came of it, until the action is `Finish`.

use vstd::prelude::*;
use vstd::string::*;
use crate::gsm::reply::{
    acknowledged, battery_fields, battery_of, is_acknowledged, is_prompted, is_registered,
    location_fields, location_of, prompted, registered,
};
use crate::gsm::types::{
    result_view, texts, Action, ActionView, Event, EventView, Fault, GsmError, Level,
    LocationFields, LocationFieldsView, Reply, ReplyView,
};
use crate::text::{contains, contains_text, join, same_text, trim, trim_text};

verus! {

/// Most characters that one text message holds.
pub const SMS_MAX_CHARS: usize = 160;

/// The byte that submits the body of a message.
pub const SUBMIT: u8 = 0x1a;

/// Seconds that sending a message is given when the session cannot send.
pub const SIMULATED_SEND: u64 = 5;

/// Seconds to wait for the modem's report on a submitted message.
pub const REPORT_WAIT: u64 = 60;

/// Seconds to wait for the final acknowledgement of a submitted message.
pub const FINAL_WAIT: u64 = 10;

/// Seconds to wait for the bearer to open.
pub const BEARER_WAIT: u64 = 2;

/// Seconds to wait for a location.
pub const LOCATE_WAIT: u64 = 10;

/// Seconds for which the power pin is held low.
pub const PULSE_LOW: u64 = 2;

/// Seconds that the modem is given to settle after a pulse.
pub const SETTLE: u64 = 3;

/// Where the session stands: the action that it waits to be answered.
#[derive(Debug, Clone, Copy, PartialEq, Eq, Structural)]
pub enum Stage {
    /// No operation is under way.
    Idle,
    /// Sending is simulated; the pause is under way.
    Simulated,
    /// `AT+CMGF=1` is out.
    TextMode,
    /// `AT+CMGS` is out.
    Prompt,
    /// The body of the message is being written.
    Body,
    /// The echo of the body is being collected.
    Echo,
    /// The submit byte is being written.
    Submit,
    /// The modem's report on the message is awaited.
    Report,
    /// The final acknowledgement is awaited.
    Final,
    /// `AT+CREG?` is out.
    Registration,
    /// `AT+CBC` is out.
    ModemCell,
    /// `AT+CADC?` is out.
    Adc,
    /// The power pin is being driven low.
    PulseLow,
    /// The power pin is held low.
    PulseHold,
    /// The power pin is being driven high.
    PulseHigh,
    /// The modem settles.
    PulseSettle,
    /// The status pin is being read after a pulse.
    Readback,
    /// `AT+CGATT=1` is out.
    Attach,
    /// The connection type of the bearer is out.
    ConnectionType,
    /// The access point name of the bearer is out.
    AccessPoint,
    /// `AT+SAPBR=1,1` is out.
    OpenBearer,
    /// `AT+CIPGSMLOC=1,1` is out.
    Locate,
    /// `AT+SAPBR=0,1` is out.
    Close,
}

impl Stage {
    /// The stages of a location query before the bearer is closed.
    pub open spec fn in_bearer(self) -> bool {
        self == Stage::Attach || self == Stage::ConnectionType || self == Stage::AccessPoint
            || self == Stage::OpenBearer || self == Stage::Locate
    }
}

/// The modem session.
#[derive(Debug)]
pub struct Gsm {
    /// Whether the session can send text messages.
    pub sms: bool,
    /// Seconds for which a power pulse holds the pin low.
    pub pulse_low: u64,
    /// Seconds that the modem is given to settle after a pulse.
    pub settle: u64,
    pub stage: Stage,
    /// Body of the message that is being sent.
    pub message: String,
    /// Number that the message goes to.
    pub number: String,
    /// The answer to `AT+CBC`, kept while `AT+CADC?` is out.
    pub held: Vec<String>,
    /// The location that was read, kept while the bearer is closed.
    pub longitude: String,
    pub latitude: String,
    /// The failure of a location query, kept while the bearer is closed.
    pub failure: Option<GsmError>,
}

/// The session with its texts as sequences of characters.
pub struct GsmView {
    pub sms: bool,
    pub pulse_low: u64,
    pub settle: u64,
    pub stage: Stage,
    pub message: Seq<char>,
    pub number: Seq<char>,
    pub held: Seq<Seq<char>>,
    pub longitude: Seq<char>,
    pub latitude: Seq<char>,
    pub failure: Option<GsmError>,
}

impl View for Gsm {
    type V = GsmView;

    open spec fn view(&self) -> GsmView {
        GsmView {
            sms: self.sms,
            pulse_low: self.pulse_low,
            settle: self.settle,
            stage: self.stage,
            message: self.message@,
            number: self.number@,
            held: texts(self.held@),
            longitude: self.longitude@,
            latitude: self.latitude@,
            failure: self.failure,
        }
    }
}

impl GsmView {
    /// The session at another stage.
    pub open spec fn at(self, stage: Stage) -> GsmView {
        GsmView { stage, ..self }
    }
}

/// The action that sends `command` and collects the answer.
pub open spec fn transact(command: Seq<char>, patience: u64) -> ActionView {
    ActionView::Transact { command, patience }
}

/// The command that asks for the prompt of a message to `number`.
pub open spec fn prompt_command(number: Seq<char>) -> Seq<char> {
    "AT+CMGS=\""@ + number + "\""@
}

/// The command that sets the access point name of the bearer.
pub open spec fn access_point_command() -> Seq<char> {
    "AT+SAPBR=3,1,\"APN\",\""@ + "gprs-service.com"@ + "\""@
}

/// The action that closes the bearer.
pub open spec fn close_bearer() -> ActionView {
    transact("AT+SAPBR=0,1"@, 0)
}

/// The end of an operation: the session is idle again and keeps no
/// failure.
pub open spec fn finish(g: GsmView, result: Result<ReplyView, GsmError>) -> (GsmView, ActionView) {
    (GsmView { stage: Stage::Idle, failure: None, ..g }, ActionView::Finish(result))
}

/// What the session does when a step fails with `e`. Inside a location
/// query the bearer is closed first and the failure is kept until that is
/// done. A failure of the closing itself ends the query, with the failure
/// that was kept if there is one.
pub open spec fn fail(g: GsmView, e: GsmError) -> (GsmView, ActionView) {
    if g.stage.in_bearer() {
        (GsmView { stage: Stage::Close, failure: Some(e), ..g }, close_bearer())
    } else if g.stage == Stage::Close {
        finish(
            g,
            Err(
                match g.failure {
                    Some(first) => first,
                    None => e,
                },
            ),
        )
    } else {
        finish(g, Err(e))
    }
}

/// The next step of a location query whose command was answered with
/// `lines`: on to `next` if the modem acknowledged, else the failure
/// `fault`.
pub open spec fn bearer_step(
    g: GsmView,
    lines: Seq<Seq<char>>,
    fault: Fault,
    stage: Stage,
    next: ActionView,
) -> (GsmView, ActionView) {
    if acknowledged(lines) {
        (g.at(stage), next)
    } else {
        fail(g, GsmError::Rejected(fault))
    }
}

/// The session after `event`, and the action that it asks for.
pub open spec fn step(g: GsmView, event: EventView) -> (GsmView, ActionView) {
    match event {
        EventView::Failed(e) => fail(g, GsmError::Io(e)),
        EventView::Done => match g.stage {
            Stage::Simulated => finish(g, Ok(ReplyView::Sent)),
            Stage::Body => (g.at(Stage::Echo), ActionView::Drain),
            Stage::Submit => (g.at(Stage::Report), ActionView::ReadLine { patience: REPORT_WAIT }),
            Stage::PulseLow => (g.at(Stage::PulseHold), ActionView::Sleep(g.pulse_low)),
            Stage::PulseHold => (g.at(Stage::PulseHigh), ActionView::SetPower(Level::High)),
            Stage::PulseHigh => (g.at(Stage::PulseSettle), ActionView::Sleep(g.settle)),
            Stage::PulseSettle => (g.at(Stage::Readback), ActionView::ReadStatus),
            _ => fail(g, GsmError::Unexpected),
        },
        EventView::Lines(lines) => match g.stage {
            Stage::TextMode => if acknowledged(lines) {
                (g.at(Stage::Prompt), transact(prompt_command(g.number), 0))
            } else {
                finish(g, Err(GsmError::Rejected(Fault::TextMode)))
            },
            Stage::Prompt => if prompted(lines) {
                (g.at(Stage::Body), ActionView::WriteLine(g.message))
            } else {
                finish(g, Err(GsmError::Rejected(Fault::Prompt)))
            },
            Stage::Echo => (g.at(Stage::Submit), ActionView::WriteByte(SUBMIT)),
            Stage::Registration => finish(g, Ok(ReplyView::Registered(registered(lines)))),
            Stage::ModemCell => (
                GsmView { stage: Stage::Adc, held: lines, ..g },
                transact("AT+CADC?"@, 0),
            ),
            Stage::Adc => finish(
                g,
                match battery_of(g.held, lines) {
                    Ok(fields) => Ok(ReplyView::Battery(fields)),
                    Err(e) => Err(e),
                },
            ),
            Stage::Attach => bearer_step(
                g,
                lines,
                Fault::Attach,
                Stage::ConnectionType,
                transact("AT+SAPBR=3,1,\"CONTYPE\",\"GPRS\""@, 0),
            ),
            Stage::ConnectionType => bearer_step(
                g,
                lines,
                Fault::ConnectionType,
                Stage::AccessPoint,
                transact(access_point_command(), 0),
            ),
            Stage::AccessPoint => bearer_step(
                g,
                lines,
                Fault::AccessPoint,
                Stage::OpenBearer,
                transact("AT+SAPBR=1,1"@, BEARER_WAIT),
            ),
            Stage::OpenBearer => bearer_step(
                g,
                lines,
                Fault::OpenBearer,
                Stage::Locate,
                transact("AT+CIPGSMLOC=1,1"@, LOCATE_WAIT),
            ),
            Stage::Locate => match location_of(lines) {
                Some((longitude, latitude)) => (
                    GsmView { stage: Stage::Close, longitude, latitude, failure: None, ..g },
                    close_bearer(),
                ),
                None => fail(g, GsmError::Rejected(Fault::Locate)),
            },
            Stage::Close => finish(
                g,
                match g.failure {
                    Some(e) => Err(e),
                    None => Ok(
                        ReplyView::Location(
                            LocationFieldsView {
                                longitude: g.longitude,
                                latitude: g.latitude,
                                bearer_closed: acknowledged(lines),
                            },
                        ),
                    ),
                },
            ),
            _ => fail(g, GsmError::Unexpected),
        },
        EventView::Line(line) => match g.stage {
            Stage::Report => if line matches Some(text) && contains(text, "+CMGS"@) {
                (g.at(Stage::Final), ActionView::ReadLine { patience: FINAL_WAIT })
            } else {
                finish(g, Err(GsmError::Rejected(Fault::Report)))
            },
            Stage::Final => if line matches Some(text) && trim(text) == "OK"@ {
                finish(g, Ok(ReplyView::Sent))
            } else {
                finish(g, Err(GsmError::Rejected(Fault::Final)))
            },
            _ => fail(g, GsmError::Unexpected),
        },
        EventView::Status(on) => match g.stage {
            Stage::Readback => finish(g, Ok(ReplyView::Power { pulsed: true, on })),
            _ => fail(g, GsmError::Unexpected),
        },
    }
}

/// The first step of a connectivity check.
pub open spec fn begin_connectivity(g: GsmView, on: bool) -> (GsmView, ActionView) {
    if on {
        (g.at(Stage::Registration), transact("AT+CREG?"@, 0))
    } else {
        finish(g, Err(GsmError::Off))
    }
}

/// The first step of a power pulse that is wanted when the status pin
/// reads `wanted_from` and is left out otherwise.
pub open spec fn begin_pulse(g: GsmView, on: bool, wanted_from: bool) -> (GsmView, ActionView) {
    if on == wanted_from {
        (g.at(Stage::PulseLow), ActionView::SetPower(Level::Low))
    } else {
        finish(g, Ok(ReplyView::Power { pulsed: false, on }))
    }
}

/// The first step of sending `message` to `number`.
pub open spec fn begin_sms(g: GsmView, on: bool, message: Seq<char>, number: Seq<char>) -> (
    GsmView,
    ActionView,
) {
    if !on {
        finish(g, Err(GsmError::Off))
    } else if message.len() > SMS_MAX_CHARS {
        finish(g, Err(GsmError::MessageTooLong))
    } else if g.sms {
        (GsmView { stage: Stage::TextMode, message, number, ..g }, transact("AT+CMGF=1"@, 0))
    } else {
        (g.at(Stage::Simulated), ActionView::Sleep(SIMULATED_SEND))
    }
}

/// The first step of a battery check.
pub open spec fn begin_battery(g: GsmView, on: bool) -> (GsmView, ActionView) {
    if on {
        (g.at(Stage::ModemCell), transact("AT+CBC"@, 0))
    } else {
        finish(g, Err(GsmError::Off))
    }
}

/// The first step of a location query.
pub open spec fn begin_location(g: GsmView, on: bool) -> (GsmView, ActionView) {
    if on {
        (g.at(Stage::Attach), transact("AT+CGATT=1"@, 0))
    } else {
        finish(g, Err(GsmError::Off))
    }
}

impl Gsm {
    /// A session at rest, with the standard timing of the power pulse.
    /// `sms` says whether the session can send text messages.
    pub fn initialize(sms: bool) -> (gsm: Gsm)
        ensures
            gsm@ == (GsmView {
                sms,
                pulse_low: PULSE_LOW,
                settle: SETTLE,
                stage: Stage::Idle,
                message: Seq::empty(),
                number: Seq::empty(),
                held: Seq::empty(),
                longitude: Seq::empty(),
                latitude: Seq::empty(),
                failure: None,
            }),
    {
        let gsm = Gsm {
            sms,
            pulse_low: PULSE_LOW,
            settle: SETTLE,
            stage: Stage::Idle,
            message: String::new(),
            number: String::new(),
            held: Vec::new(),
            longitude: String::new(),
            latitude: String::new(),
            failure: None,
        };
        assert(texts(gsm.held@) =~= Seq::empty());
        gsm
    }

    /// The session with another timing of the power pulse, in seconds.
    pub fn with_timing(self, pulse_low: u64, settle: u64) -> (gsm: Gsm)
        ensures
            gsm@ == (GsmView { pulse_low, settle, ..self@ }),
    {
        let mut gsm = self;
        gsm.pulse_low = pulse_low;
        gsm.settle = settle;
        gsm
    }

    fn moved_to(self, stage: Stage) -> (gsm: Gsm)
        ensures
            gsm@ == self@.at(stage),
    {
        let mut gsm = self;
        gsm.stage = stage;
        gsm
    }

    fn command(text: &str, patience: u64) -> (action: Action)
        ensures
            action@ == transact(text@, patience),
    {
        Action::Transact { command: text.to_owned(), patience }
    }

    fn finished(self, result: Result<Reply, GsmError>) -> (next: (Gsm, Action))
        ensures
            (next.0@, next.1@) == finish(self@, result_view(result)),
    {
        let mut gsm = self;
        gsm.stage = Stage::Idle;
        gsm.failure = None;
        (gsm, Action::Finish(result))
    }

    fn failed(self, e: GsmError) -> (next: (Gsm, Action))
        ensures
            (next.0@, next.1@) == fail(self@, e),
    {
        let mut gsm = self;
        match gsm.stage {
            Stage::Attach | Stage::ConnectionType | Stage::AccessPoint | Stage::OpenBearer
            | Stage::Locate => {
                gsm.stage = Stage::Close;
                gsm.failure = Some(e);
                (gsm, Self::command("AT+SAPBR=0,1", 0))
            },
            Stage::Close => {
                let kept = gsm.failure;
                gsm.failure = None;
                match kept {
                    Some(first) => gsm.finished(Err(first)),
                    None => gsm.finished(Err(e)),
                }
            },
            _ => gsm.finished(Err(e)),
        }
    }

    fn bearer_stepped(self, lines: &Vec<String>, fault: Fault, stage: Stage, next: Action) -> (out:
        (Gsm, Action))
        ensures
            (out.0@, out.1@) == bearer_step(self@, texts(lines@), fault, stage, next@),
    {
        if is_acknowledged(lines) {
            (self.moved_to(stage), next)
        } else {
            self.failed(GsmError::Rejected(fault))
        }
    }

    /// Begins a check of the network registration. `on` is what the status
    /// pin reads.
    pub fn has_connectivity(self, on: bool) -> (next: (Gsm, Action))
        ensures
            (next.0@, next.1@) == begin_connectivity(self@, on),
    {
        if on {
            (self.moved_to(Stage::Registration), Self::command("AT+CREG?", 0))
        } else {
            self.finished(Err(GsmError::Off))
        }
    }

    /// Begins powering the modem on. `on` is what the status pin reads: if
    /// it reads on already, nothing is done.
    pub fn turn_on(self, on: bool) -> (next: (Gsm, Action))
        ensures
            (next.0@, next.1@) == begin_pulse(self@, on, false),
    {
        if on {
            self.finished(Ok(Reply::Power { pulsed: false, on }))
        } else {
            (self.moved_to(Stage::PulseLow), Action::SetPower(Level::Low))
        }
    }

    /// Begins powering the modem off. `on` is what the status pin reads:
    /// if it reads off already, nothing is done.
    pub fn turn_off(self, on: bool) -> (next: (Gsm, Action))
        ensures
            (next.0@, next.1@) == begin_pulse(self@, on, true),
    {
        if on {
            (self.moved_to(Stage::PulseLow), Action::SetPower(Level::Low))
        } else {
            self.finished(Ok(Reply::Power { pulsed: false, on }))
        }
    }

    /// Begins sending `message` to `number`. `on` is what the status pin
    /// reads. A message of more than 160 characters is refused at once.
    pub fn send_sms(self, on: bool, message: String, number: String) -> (next: (Gsm, Action))
        ensures
            (next.0@, next.1@) == begin_sms(self@, on, message@, number@),
    {
        if !on {
            self.finished(Err(GsmError::Off))
        } else if message.as_str().unicode_len() > SMS_MAX_CHARS {
            self.finished(Err(GsmError::MessageTooLong))
        } else if self.sms {
            let mut gsm = self;
            gsm.stage = Stage::TextMode;
            gsm.message = message;
            gsm.number = number;
            (gsm, Self::command("AT+CMGF=1", 0))
        } else {
            (self.moved_to(Stage::Simulated), Action::Sleep(SIMULATED_SEND))
        }
    }

    /// Begins a battery check. `on` is what the status pin reads.
    pub fn get_battery_status(self, on: bool) -> (next: (Gsm, Action))
        ensures
            (next.0@, next.1@) == begin_battery(self@, on),
    {
        if on {
            (self.moved_to(Stage::ModemCell), Self::command("AT+CBC", 0))
        } else {
            self.finished(Err(GsmError::Off))
        }
    }

    /// Begins a location query. `on` is what the status pin reads.
    pub fn get_coordinates(self, on: bool) -> (next: (Gsm, Action))
        ensures
            (next.0@, next.1@) == begin_location(self@, on),
    {
        if on {
            (self.moved_to(Stage::Attach), Self::command("AT+CGATT=1", 0))
        } else {
            self.finished(Err(GsmError::Off))
        }
    }

    fn resumed_done(self) -> (next: (Gsm, Action))
        ensures
            (next.0@, next.1@) == step(self@, EventView::Done),
    {
        match self.stage {
            Stage::Simulated => self.finished(Ok(Reply::Sent)),
            Stage::Body => (self.moved_to(Stage::Echo), Action::Drain),
            Stage::Submit => (
                self.moved_to(Stage::Report),
                Action::ReadLine { patience: REPORT_WAIT },
            ),
            Stage::PulseLow => {
                let seconds: u64 = self.pulse_low;
                (self.moved_to(Stage::PulseHold), Action::Sleep(seconds))
            },
            Stage::PulseHold => (self.moved_to(Stage::PulseHigh), Action::SetPower(Level::High)),
            Stage::PulseHigh => {
                let seconds: u64 = self.settle;
                (self.moved_to(Stage::PulseSettle), Action::Sleep(seconds))
            },
            Stage::PulseSettle => (self.moved_to(Stage::Readback), Action::ReadStatus),
            _ => self.failed(GsmError::Unexpected),
        }
    }

    fn resumed_lines(self, lines: Vec<String>) -> (next: (Gsm, Action))
        ensures
            (next.0@, next.1@) == step(self@, EventView::Lines(texts(lines@))),
    {
        match self.stage {
            Stage::TextMode => {
                if is_acknowledged(&lines) {
                    let command: String = join("AT+CMGS=\"", self.number.as_str()).concat("\"");
                    (self.moved_to(Stage::Prompt), Action::Transact { command, patience: 0 })
                } else {
                    self.finished(Err(GsmError::Rejected(Fault::TextMode)))
                }
            },
            Stage::Prompt => {
                if is_prompted(&lines) {
                    let body: String = self.message.clone();
                    (self.moved_to(Stage::Body), Action::WriteLine(body))
                } else {
                    self.finished(Err(GsmError::Rejected(Fault::Prompt)))
                }
            },
            Stage::Echo => (self.moved_to(Stage::Submit), Action::WriteByte(SUBMIT)),
            Stage::Registration => {
                let yes: bool = is_registered(&lines);
                self.finished(Ok(Reply::Registered(yes)))
            },
            Stage::ModemCell => {
                let mut gsm = self;
                gsm.stage = Stage::Adc;
                gsm.held = lines;
                (gsm, Self::command("AT+CADC?", 0))
            },
            Stage::Adc => {
                let read = battery_fields(&self.held, &lines);
                match read {
                    Ok(fields) => self.finished(Ok(Reply::Battery(fields))),
                    Err(e) => self.finished(Err(e)),
                }
            },
            Stage::Attach => self.bearer_stepped(
                &lines,
                Fault::Attach,
                Stage::ConnectionType,
                Self::command("AT+SAPBR=3,1,\"CONTYPE\",\"GPRS\"", 0),
            ),
            Stage::ConnectionType => {
                let command: String = join("AT+SAPBR=3,1,\"APN\",\"", "gprs-service.com").concat(
                    "\"",
                );
                self.bearer_stepped(
                    &lines,
                    Fault::ConnectionType,
                    Stage::AccessPoint,
                    Action::Transact { command, patience: 0 },
                )
            },
            Stage::AccessPoint => self.bearer_stepped(
                &lines,
                Fault::AccessPoint,
                Stage::OpenBearer,
                Self::command("AT+SAPBR=1,1", BEARER_WAIT),
            ),
            Stage::OpenBearer => self.bearer_stepped(
                &lines,
                Fault::OpenBearer,
                Stage::Locate,
                Self::command("AT+CIPGSMLOC=1,1", LOCATE_WAIT),
            ),
            Stage::Locate => match location_fields(&lines) {
                Some((longitude, latitude)) => {
                    let mut gsm = self;
                    gsm.stage = Stage::Close;
                    gsm.longitude = longitude;
                    gsm.latitude = latitude;
                    gsm.failure = None;
                    (gsm, Self::command("AT+SAPBR=0,1", 0))
                },
                None => self.failed(GsmError::Rejected(Fault::Locate)),
            },
            Stage::Close => {
                let mut gsm = self;
                let kept = gsm.failure;
                gsm.failure = None;
                match kept {
                    Some(e) => gsm.finished(Err(e)),
                    None => {
                        let fields = LocationFields {
                            longitude: gsm.longitude.clone(),
                            latitude: gsm.latitude.clone(),
                            bearer_closed: is_acknowledged(&lines),
                        };
                        gsm.finished(Ok(Reply::Location(fields)))
                    },
                }
            },
            _ => self.failed(GsmError::Unexpected),
        }
    }

    fn resumed_line(self, line: Option<String>) -> (next: (Gsm, Action))
        ensures
            (next.0@, next.1@) == step(self@, Event::Line(line)@),
    {
        match self.stage {
            Stage::Report => {
                let reported: bool = match &line {
                    Some(text) => contains_text(text.as_str(), "+CMGS"),
                    None => false,
                };
                if reported {
                    (self.moved_to(Stage::Final), Action::ReadLine { patience: FINAL_WAIT })
                } else {
                    self.finished(Err(GsmError::Rejected(Fault::Report)))
                }
            },
            Stage::Final => {
                let confirmed: bool = match &line {
                    Some(text) => {
                        let bare: String = trim_text(text.as_str());
                        same_text(bare.as_str(), "OK")
                    },
                    None => false,
                };
                if confirmed {
                    self.finished(Ok(Reply::Sent))
                } else {
                    self.finished(Err(GsmError::Rejected(Fault::Final)))
                }
            },
            _ => self.failed(GsmError::Unexpected),
        }
    }

    /// Resumes the operation under way with the event that came of the
    /// action that the session last asked for, and gives the next action.
    ///
    /// An event that does not answer that action, or any event while no
    /// operation is under way, counts as a failed step.
    pub fn resume(self, event: Event) -> (next: (Gsm, Action))
        ensures
            (next.0@, next.1@) == step(self@, event@),
    {
        match event {
            Event::Failed(e) => self.failed(GsmError::Io(e)),
            Event::Done => self.resumed_done(),
            Event::Lines(lines) => self.resumed_lines(lines),
            Event::Line(line) => self.resumed_line(line),
            Event::Status(on) => match self.stage {
                Stage::Readback => self.finished(Ok(Reply::Power { pulsed: true, on })),
                _ => self.failed(GsmError::Unexpected),
            },
        }
    }
}

} // verus!
