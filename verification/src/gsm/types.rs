//! What passes between the modem session and the code that drives the
//! serial line and the pins.

use vstd::prelude::*;
use vstd::string::*;

verus! {

/// The characters of each text of `lines`.
pub open spec fn texts(lines: Seq<String>) -> Seq<Seq<char>> {
    lines.map_values(|line: String| line@)
}

/// The step of an exchange at which the modem did not answer as expected.
#[derive(Debug, Clone, Copy, PartialEq, Eq, Structural)]
pub enum Fault {
    /// `AT+CMGF=1` was not acknowledged.
    TextMode,
    /// `AT+CMGS` did not bring the prompt.
    Prompt,
    /// No `+CMGS` line came after the message was submitted.
    Report,
    /// No final `OK` came after the message was submitted.
    Final,
    /// A battery query brought fewer than two lines.
    BatterySilent,
    /// No `+CBC:` line among the answer to `AT+CBC`.
    ModemCell,
    /// No `+CADC:` line among the answer to `AT+CADC?`.
    Adc,
    /// `AT+CGATT=1` was not acknowledged.
    Attach,
    /// The connection type of the bearer was not acknowledged.
    ConnectionType,
    /// The access point name of the bearer was not acknowledged.
    AccessPoint,
    /// `AT+SAPBR=1,1` was not acknowledged.
    OpenBearer,
    /// `AT+CIPGSMLOC=1,1` did not bring a location.
    Locate,
}

/// The classes of modem failure.
#[derive(Debug, Clone, Copy, PartialEq, Eq, Structural)]
pub enum ErrorKind {
    /// The modem is powered off.
    BrokenPipe,
    /// The request itself cannot be served.
    InvalidInput,
    /// The modem answered, but a field that was needed is missing.
    InvalidData,
    /// The modem did not answer as the protocol expects.
    Other,
    /// The serial line failed.
    Io,
}

/// Why a modem operation failed.
#[derive(Debug)]
pub enum GsmError {
    /// The status pin reads off.
    Off,
    /// The message has more than 160 characters.
    MessageTooLong,
    /// The modem did not answer as expected at the given step.
    Rejected(Fault),
    /// A battery line has too few fields.
    Malformed,
    /// The serial line failed.
    Io(std::io::Error),
    /// The session was resumed with an event that does not answer the
    /// action it had asked for.
    Unexpected,
}

impl GsmError {
    /// The class of this failure.
    pub open spec fn kind_of(self) -> ErrorKind {
        match self {
            GsmError::Off => ErrorKind::BrokenPipe,
            GsmError::MessageTooLong => ErrorKind::InvalidInput,
            GsmError::Rejected(_) => ErrorKind::Other,
            GsmError::Malformed => ErrorKind::InvalidData,
            GsmError::Io(_) => ErrorKind::Io,
            GsmError::Unexpected => ErrorKind::Other,
        }
    }

    /// The diagnostic of this failure. A failed step is named by the
    /// command that was not answered. For a failure of the serial line the
    /// diagnostic is left to the error that the line gave.
    pub open spec fn message_of(self) -> Seq<char> {
        match self {
            GsmError::Off => "GSM is off"@,
            GsmError::MessageTooLong => "message too long"@,
            GsmError::Rejected(Fault::TextMode) => "no 'OK' received on 'AT+CMGF=1' response"@,
            GsmError::Rejected(Fault::Prompt) => "no prompt received on 'AT+CMGS' response"@,
            GsmError::Rejected(Fault::Report) => "no '+CMGS' received"@,
            GsmError::Rejected(Fault::Final) => "no 'OK' received"@,
            GsmError::Rejected(Fault::BatterySilent) => "no response received"@,
            GsmError::Rejected(Fault::ModemCell) => "invalid response received on 'AT+CBC'"@,
            GsmError::Rejected(Fault::Adc) => "invalid response received on 'AT+CADC?'"@,
            GsmError::Rejected(Fault::Attach) => "no OK received on 'AT+CGATT=1' response"@,
            GsmError::Rejected(Fault::ConnectionType) =>
                "no OK received on 'AT+SAPBR=3,1,\"CONTYPE\",\"GPRS\"' response"@,
            GsmError::Rejected(Fault::AccessPoint) =>
                "no OK received on 'AT+SAPBR=3,1,\"APN\",\"gprs-service.com\"' response"@,
            GsmError::Rejected(Fault::OpenBearer) => "no OK received on 'AT+SAPBR=1,1' response"@,
            GsmError::Rejected(Fault::Locate) =>
                "bad response getting location on 'AT+CIPGSMLOC=1,1' response"@,
            GsmError::Malformed => "invalid battery check response"@,
            GsmError::Io(_) => "serial line failed"@,
            GsmError::Unexpected => "unexpected event"@,
        }
    }

    /// The class of this failure.
    pub fn kind(&self) -> (kind: ErrorKind)
        ensures
            kind == self.kind_of(),
    {
        match self {
            GsmError::Off => ErrorKind::BrokenPipe,
            GsmError::MessageTooLong => ErrorKind::InvalidInput,
            GsmError::Rejected(_) => ErrorKind::Other,
            GsmError::Malformed => ErrorKind::InvalidData,
            GsmError::Io(_) => ErrorKind::Io,
            GsmError::Unexpected => ErrorKind::Other,
        }
    }

    /// The diagnostic of this failure.
    pub fn message(&self) -> (text: &'static str)
        ensures
            text@ == self.message_of(),
    {
        match self {
            GsmError::Off => "GSM is off",
            GsmError::MessageTooLong => "message too long",
            GsmError::Rejected(Fault::TextMode) => "no 'OK' received on 'AT+CMGF=1' response",
            GsmError::Rejected(Fault::Prompt) => "no prompt received on 'AT+CMGS' response",
            GsmError::Rejected(Fault::Report) => "no '+CMGS' received",
            GsmError::Rejected(Fault::Final) => "no 'OK' received",
            GsmError::Rejected(Fault::BatterySilent) => "no response received",
            GsmError::Rejected(Fault::ModemCell) => "invalid response received on 'AT+CBC'",
            GsmError::Rejected(Fault::Adc) => "invalid response received on 'AT+CADC?'",
            GsmError::Rejected(Fault::Attach) => "no OK received on 'AT+CGATT=1' response",
            GsmError::Rejected(Fault::ConnectionType) =>
                "no OK received on 'AT+SAPBR=3,1,\"CONTYPE\",\"GPRS\"' response",
            GsmError::Rejected(Fault::AccessPoint) =>
                "no OK received on 'AT+SAPBR=3,1,\"APN\",\"gprs-service.com\"' response",
            GsmError::Rejected(Fault::OpenBearer) => "no OK received on 'AT+SAPBR=1,1' response",
            GsmError::Rejected(Fault::Locate) =>
                "bad response getting location on 'AT+CIPGSMLOC=1,1' response",
            GsmError::Malformed => "invalid battery check response",
            GsmError::Io(_) => "serial line failed",
            GsmError::Unexpected => "unexpected event",
        }
    }
}

/// Level of the power pin.
#[derive(Debug, Clone, Copy, PartialEq, Eq, Structural)]
pub enum Level {
    Low,
    High,
}

/// The two raw readings of a battery check, as the modem wrote them.
#[derive(Debug)]
pub struct BatteryFields {
    /// Millivolts of the modem's own cell.
    pub modem_millivolts: String,
    /// Millivolts at the converter that measures the main pack.
    pub main_millivolts: String,
}

/// The two raw fields of a location query, as the modem wrote them.
#[derive(Debug)]
pub struct LocationFields {
    pub longitude: String,
    pub latitude: String,
    /// Whether the modem acknowledged the closing of the bearer.
    pub bearer_closed: bool,
}

/// What a modem operation that succeeded gives back.
#[derive(Debug)]
pub enum Reply {
    /// The message was handed to the network, or, without the capability
    /// to send, the time that sending takes has passed.
    Sent,
    /// Whether the modem is registered with a network.
    Registered(bool),
    /// The power pin was pulsed or left alone, and the status pin reads
    /// `on` at the end.
    Power { pulsed: bool, on: bool },
    Battery(BatteryFields),
    Location(LocationFields),
}

/// What the driver is to do next.
#[derive(Debug)]
pub enum Action {
    /// Flush the serial line, write `command` and a line feed, then collect
    /// the lines of the answer until the modem falls silent, waiting up to
    /// `patience` seconds for it to begin. Answer with `Event::Lines`.
    Transact { command: String, patience: u64 },
    /// Write `text` and a line feed. Answer with `Event::Done`.
    WriteLine(String),
    /// Write one byte. Answer with `Event::Done`.
    WriteByte(u8),
    /// Collect lines until the modem falls silent. Answer with
    /// `Event::Lines`.
    Drain,
    /// Wait up to `patience` seconds for a line that is not empty. Answer
    /// with `Event::Line`.
    ReadLine { patience: u64 },
    /// Drive the power pin. Answer with `Event::Done`.
    SetPower(Level),
    /// Let the given number of seconds pass. Answer with `Event::Done`.
    Sleep(u64),
    /// Read the status pin. Answer with `Event::Status`.
    ReadStatus,
    /// The operation is over; nothing is to be answered.
    Finish(Result<Reply, GsmError>),
}

/// What came of the action that the session asked for.
#[derive(Debug)]
pub enum Event {
    /// The status pin reads on (`true`) or off.
    Status(bool),
    /// The lines that the modem sent, each without its line ending.
    Lines(Vec<String>),
    /// The line that came, or `None` if the time ran out.
    Line(Option<String>),
    /// The action was carried out.
    Done,
    /// The serial line failed.
    Failed(std::io::Error),
}

/// A battery check's readings as sequences of characters.
pub struct BatteryFieldsView {
    pub modem_millivolts: Seq<char>,
    pub main_millivolts: Seq<char>,
}

/// A location query's fields as sequences of characters.
pub struct LocationFieldsView {
    pub longitude: Seq<char>,
    pub latitude: Seq<char>,
    pub bearer_closed: bool,
}

/// A reply with its texts as sequences of characters.
pub enum ReplyView {
    Sent,
    Registered(bool),
    Power { pulsed: bool, on: bool },
    Battery(BatteryFieldsView),
    Location(LocationFieldsView),
}

/// An action with its texts as sequences of characters.
pub enum ActionView {
    Transact { command: Seq<char>, patience: u64 },
    WriteLine(Seq<char>),
    WriteByte(u8),
    Drain,
    ReadLine { patience: u64 },
    SetPower(Level),
    Sleep(u64),
    ReadStatus,
    Finish(Result<ReplyView, GsmError>),
}

/// An event with its texts as sequences of characters.
pub enum EventView {
    Status(bool),
    Lines(Seq<Seq<char>>),
    Line(Option<Seq<char>>),
    Done,
    Failed(std::io::Error),
}

impl View for BatteryFields {
    type V = BatteryFieldsView;

    open spec fn view(&self) -> BatteryFieldsView {
        BatteryFieldsView {
            modem_millivolts: self.modem_millivolts@,
            main_millivolts: self.main_millivolts@,
        }
    }
}

impl View for LocationFields {
    type V = LocationFieldsView;

    open spec fn view(&self) -> LocationFieldsView {
        LocationFieldsView {
            longitude: self.longitude@,
            latitude: self.latitude@,
            bearer_closed: self.bearer_closed,
        }
    }
}

impl View for Reply {
    type V = ReplyView;

    open spec fn view(&self) -> ReplyView {
        match *self {
            Reply::Sent => ReplyView::Sent,
            Reply::Registered(yes) => ReplyView::Registered(yes),
            Reply::Power { pulsed, on } => ReplyView::Power { pulsed, on },
            Reply::Battery(fields) => ReplyView::Battery(fields@),
            Reply::Location(fields) => ReplyView::Location(fields@),
        }
    }
}

/// The view of an operation's result.
pub open spec fn result_view(result: Result<Reply, GsmError>) -> Result<ReplyView, GsmError> {
    match result {
        Ok(reply) => Ok(reply@),
        Err(e) => Err(e),
    }
}

impl View for Action {
    type V = ActionView;

    open spec fn view(&self) -> ActionView {
        match *self {
            Action::Transact { command, patience } => ActionView::Transact {
                command: command@,
                patience,
            },
            Action::WriteLine(text) => ActionView::WriteLine(text@),
            Action::WriteByte(byte) => ActionView::WriteByte(byte),
            Action::Drain => ActionView::Drain,
            Action::ReadLine { patience } => ActionView::ReadLine { patience },
            Action::SetPower(level) => ActionView::SetPower(level),
            Action::Sleep(seconds) => ActionView::Sleep(seconds),
            Action::ReadStatus => ActionView::ReadStatus,
            Action::Finish(result) => ActionView::Finish(result_view(result)),
        }
    }
}

impl View for Event {
    type V = EventView;

    open spec fn view(&self) -> EventView {
        match *self {
            Event::Status(on) => EventView::Status(on),
            Event::Lines(lines) => EventView::Lines(texts(lines@)),
            Event::Line(Some(line)) => EventView::Line(Some(line@)),
            Event::Line(None) => EventView::Line(None),
            Event::Done => EventView::Done,
            Event::Failed(e) => EventView::Failed(e),
        }
    }
}

} // verus!
