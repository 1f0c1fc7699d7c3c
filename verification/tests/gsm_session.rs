use openstratos::gsm::session::{Gsm, Stage};
use openstratos::gsm::types::{Action, ErrorKind, Event, Fault, GsmError, Level, Reply};
use std::io;

fn lines(texts: &[&str]) -> Event {
    Event::Lines(texts.iter().map(|t| t.to_string()).collect())
}

fn ok(command: &str) -> Event {
    lines(&[command, "OK"])
}

fn line(text: &str) -> Event {
    Event::Line(Some(text.to_string()))
}

fn broken() -> Event {
    Event::Failed(io::Error::new(io::ErrorKind::TimedOut, "serial timeout"))
}

/// What an action does to the serial line or the pins, in short.
fn brief(action: &Action) -> String {
    match action {
        Action::Transact { command, patience } => format!("T[{}]{}", patience, command),
        Action::WriteLine(text) => format!("W {}", text),
        Action::WriteByte(byte) => format!("B {}", byte),
        Action::Drain => "drain".to_string(),
        Action::ReadLine { patience } => format!("R[{}]", patience),
        Action::SetPower(Level::Low) => "low".to_string(),
        Action::SetPower(Level::High) => "high".to_string(),
        Action::Sleep(seconds) => format!("sleep {}", seconds),
        Action::ReadStatus => "status".to_string(),
        Action::Finish(_) => "finish".to_string(),
    }
}

/// Drives an operation with scripted events; gives what was asked of the
/// driver, the result, and the session at rest.
fn drive(begin: (Gsm, Action), script: Vec<Event>) -> (Vec<String>, Result<Reply, GsmError>, Gsm) {
    let (mut gsm, mut action) = begin;
    let mut asked = Vec::new();
    let mut script = script.into_iter();
    loop {
        if let Action::Finish(result) = action {
            assert!(script.next().is_none(), "events left over");
            assert_eq!(gsm.stage, Stage::Idle);
            assert!(gsm.failure.is_none());
            return (asked, result, gsm);
        }
        asked.push(brief(&action));
        let event = script.next().expect("script ran out");
        let next = gsm.resume(event);
        gsm = next.0;
        action = next.1;
    }
}

const TEARDOWN: &str = "T[0]AT+SAPBR=0,1";

#[test]
fn new_session_is_at_rest_with_standard_timing() {
    let gsm = Gsm::initialize(true);
    assert!(gsm.sms);
    assert_eq!(gsm.stage, Stage::Idle);
    assert_eq!(gsm.pulse_low, 2);
    assert_eq!(gsm.settle, 3);
    let gsm = Gsm::initialize(false).with_timing(0, 1);
    assert!(!gsm.sms);
    assert_eq!((gsm.pulse_low, gsm.settle), (0, 1));
}

#[test]
fn sms_with_modem_off_is_broken_pipe() {
    let begin = Gsm::initialize(true).send_sms(false, "hi".to_string(), "+10000000000".to_string());
    let (asked, result, _) = drive(begin, vec![]);
    assert!(asked.is_empty());
    let e = result.unwrap_err();
    assert!(matches!(e, GsmError::Off));
    assert_eq!(e.kind(), ErrorKind::BrokenPipe);
    assert_eq!(e.message(), "GSM is off");
}

#[test]
fn sms_too_long_is_refused_untouched() {
    let begin = Gsm::initialize(true).send_sms(true, "a".repeat(161), "x".to_string());
    let (asked, result, _) = drive(begin, vec![]);
    assert!(asked.is_empty());
    let e = result.unwrap_err();
    assert!(matches!(e, GsmError::MessageTooLong));
    assert_eq!(e.kind(), ErrorKind::InvalidInput);
    let begin = Gsm::initialize(false).send_sms(true, "a".repeat(161), "x".to_string());
    assert!(matches!(begin.1, Action::Finish(Err(GsmError::MessageTooLong))));
    let begin = Gsm::initialize(true).send_sms(false, "a".repeat(161), "x".to_string());
    assert!(matches!(begin.1, Action::Finish(Err(GsmError::Off))));
}

#[test]
fn sms_length_counts_characters() {
    let begin = Gsm::initialize(true).send_sms(true, "a".repeat(160), "x".to_string());
    assert_eq!(brief(&begin.1), "T[0]AT+CMGF=1");
    let begin = Gsm::initialize(true).send_sms(true, "\u{e9}".repeat(160), "x".to_string());
    assert_eq!(brief(&begin.1), "T[0]AT+CMGF=1");
    let begin = Gsm::initialize(true).send_sms(true, "\u{e9}".repeat(161), "x".to_string());
    assert!(matches!(begin.1, Action::Finish(Err(GsmError::MessageTooLong))));
}

#[test]
fn sms_happy_path() {
    let begin = Gsm::initialize(true).send_sms(true, "hi".to_string(), "+10000000000".to_string());
    let script = vec![
        ok("AT+CMGF=1"),
        lines(&["AT+CMGS=\"+10000000000\"", "> "]),
        Event::Done,
        lines(&["hi"]),
        Event::Done,
        line("+CMGS: 12"),
        line(" OK\r\n"),
    ];
    let (asked, result, _) = drive(begin, script);
    assert_eq!(
        asked,
        vec![
            "T[0]AT+CMGF=1",
            "T[0]AT+CMGS=\"+10000000000\"",
            "W hi",
            "drain",
            "B 26",
            "R[60]",
            "R[10]",
        ]
    );
    assert!(matches!(result, Ok(Reply::Sent)));
}

#[test]
fn sms_deviations_are_named() {
    let start = || Gsm::initialize(true).send_sms(true, "hi".to_string(), "1".to_string());
    let (asked, result, _) = drive(start(), vec![lines(&["AT+CMGF=1", "ERROR"])]);
    assert_eq!(asked.len(), 1);
    assert!(matches!(result, Err(GsmError::Rejected(Fault::TextMode))));
    let (_, result, _) = drive(start(), vec![lines(&["AT+CMGF=1"])]);
    assert!(matches!(result, Err(GsmError::Rejected(Fault::TextMode))));
    let (asked, result, _) = drive(start(), vec![ok("AT+CMGF=1"), lines(&["AT+CMGS=\"1\"", ">"])]);
    assert_eq!(asked.len(), 2);
    assert!(matches!(result, Err(GsmError::Rejected(Fault::Prompt))));
    let upto_report = || {
        vec![ok("AT+CMGF=1"), lines(&["e", "> "]), Event::Done, lines(&[]), Event::Done]
    };
    let mut script = upto_report();
    script.push(Event::Line(None));
    let (_, result, _) = drive(start(), script);
    assert!(matches!(result, Err(GsmError::Rejected(Fault::Report))));
    let mut script = upto_report();
    script.push(line("+CMS ERROR: 500"));
    let (_, result, _) = drive(start(), script);
    assert!(matches!(result, Err(GsmError::Rejected(Fault::Report))));
    let mut script = upto_report();
    script.push(line("+CMGS: 1"));
    script.push(Event::Line(None));
    let (_, result, _) = drive(start(), script);
    assert!(matches!(result, Err(GsmError::Rejected(Fault::Final))));
    let mut script = upto_report();
    script.push(line("+CMGS: 1"));
    script.push(line("ERROR"));
    let (_, result, _) = drive(start(), script);
    assert!(matches!(result, Err(GsmError::Rejected(Fault::Final))));
}

#[test]
fn sms_serial_failure_is_handed_on() {
    let begin = Gsm::initialize(true).send_sms(true, "hi".to_string(), "1".to_string());
    let (asked, result, _) = drive(begin, vec![ok("AT+CMGF=1"), lines(&["e", "> "]), broken()]);
    assert_eq!(asked.len(), 3);
    match result {
        Err(GsmError::Io(e)) => assert_eq!(e.kind(), io::ErrorKind::TimedOut),
        other => panic!("unexpected: {:?}", other),
    }
}

#[test]
fn sms_without_capability_pauses_and_succeeds() {
    let begin = Gsm::initialize(false).send_sms(true, "hi".to_string(), "1".to_string());
    let (asked, result, _) = drive(begin, vec![Event::Done]);
    assert_eq!(asked, vec!["sleep 5"]);
    assert!(matches!(result, Ok(Reply::Sent)));
}

#[test]
fn connectivity_check() {
    let begin = Gsm::initialize(true).has_connectivity(true);
    let (asked, result, _) = drive(begin, vec![lines(&["AT+CREG?", "+CREG: 0,5", "OK"])]);
    assert_eq!(asked, vec!["T[0]AT+CREG?"]);
    assert!(matches!(result, Ok(Reply::Registered(true))));
    let begin = Gsm::initialize(true).has_connectivity(true);
    let (_, result, _) = drive(begin, vec![lines(&["AT+CREG?", "+CREG: 0,3", "OK"])]);
    assert!(matches!(result, Ok(Reply::Registered(false))));
    let begin = Gsm::initialize(true).has_connectivity(false);
    let (asked, result, _) = drive(begin, vec![]);
    assert!(asked.is_empty());
    assert!(matches!(result, Err(GsmError::Off)));
}

#[test]
fn battery_check_of_scripted_modem() {
    let begin = Gsm::initialize(true).get_battery_status(true);
    let script = vec![
        lines(&["AT+CBC", "+CBC: 0,85,4100", "OK"]),
        lines(&["AT+CADC?", "+CADC: 1,8050", "OK"]),
    ];
    let (asked, result, _) = drive(begin, script);
    assert_eq!(asked, vec!["T[0]AT+CBC", "T[0]AT+CADC?"]);
    match result {
        Ok(Reply::Battery(fields)) => {
            assert_eq!(fields.modem_millivolts, "4100");
            assert_eq!(fields.main_millivolts, "8050");
        }
        other => panic!("unexpected: {:?}", other),
    }
}

#[test]
fn battery_check_failures() {
    let begin = Gsm::initialize(true).get_battery_status(false);
    assert!(matches!(begin.1, Action::Finish(Err(GsmError::Off))));
    let begin = Gsm::initialize(true).get_battery_status(true);
    let (_, result, _) = drive(begin, vec![lines(&["AT+CBC", "ERROR"]), lines(&["AT+CADC?", "+CADC: 1,8050"])]);
    assert!(matches!(result, Err(GsmError::Rejected(Fault::ModemCell))));
    let begin = Gsm::initialize(true).get_battery_status(true);
    let (asked, result, _) = drive(begin, vec![broken()]);
    assert_eq!(asked.len(), 1);
    assert!(matches!(result, Err(GsmError::Io(_))));
}

#[test]
fn power_on_pulses_low_then_high() {
    let begin = Gsm::initialize(true).turn_on(false);
    let script = vec![Event::Done, Event::Done, Event::Done, Event::Done, Event::Status(true)];
    let (asked, result, _) = drive(begin, script);
    assert_eq!(asked, vec!["low", "sleep 2", "high", "sleep 3", "status"]);
    assert!(matches!(result, Ok(Reply::Power { pulsed: true, on: true })));
}

#[test]
fn power_pulse_without_effect_is_reported_not_failed() {
    let begin = Gsm::initialize(true).turn_on(false);
    let script = vec![Event::Done, Event::Done, Event::Done, Event::Done, Event::Status(false)];
    let (_, result, _) = drive(begin, script);
    assert!(matches!(result, Ok(Reply::Power { pulsed: true, on: false })));
}

#[test]
fn power_on_of_running_modem_does_nothing() {
    let (asked, result, _) = drive(Gsm::initialize(true).turn_on(true), vec![]);
    assert!(asked.is_empty());
    assert!(matches!(result, Ok(Reply::Power { pulsed: false, on: true })));
}

#[test]
fn power_off_pulses_only_a_running_modem() {
    let (asked, result, _) = drive(Gsm::initialize(true).turn_off(false), vec![]);
    assert!(asked.is_empty());
    assert!(matches!(result, Ok(Reply::Power { pulsed: false, on: false })));
    let begin = Gsm::initialize(true).with_timing(7, 9).turn_off(true);
    let script = vec![Event::Done, Event::Done, Event::Done, Event::Done, Event::Status(false)];
    let (asked, result, _) = drive(begin, script);
    assert_eq!(asked, vec!["low", "sleep 7", "high", "sleep 9", "status"]);
    assert!(matches!(result, Ok(Reply::Power { pulsed: true, on: false })));
}

fn location_script_until(failing: usize, failure: Event) -> Vec<Event> {
    let good = vec![
        ok("AT+CGATT=1"),
        ok("AT+SAPBR=3,1,\"CONTYPE\",\"GPRS\""),
        ok("AT+SAPBR=3,1,\"APN\",\"gprs-service.com\""),
        ok("AT+SAPBR=1,1"),
        lines(&["AT+CIPGSMLOC=1,1", "+CIPGSMLOC: 0,-3.70,40.41,2017/01/01,12:00:00", "OK"]),
    ];
    let mut script: Vec<Event> = good.into_iter().take(failing).collect();
    script.push(failure);
    script
}

const LOCATION_COMMANDS: [&str; 5] = [
    "T[0]AT+CGATT=1",
    "T[0]AT+SAPBR=3,1,\"CONTYPE\",\"GPRS\"",
    "T[0]AT+SAPBR=3,1,\"APN\",\"gprs-service.com\"",
    "T[2]AT+SAPBR=1,1",
    "T[10]AT+CIPGSMLOC=1,1",
];

#[test]
fn coordinates_happy_path() {
    let mut script = location_script_until(5, ok("AT+SAPBR=0,1"));
    let _ = &mut script;
    let (asked, result, _) = drive(Gsm::initialize(true).get_coordinates(true), script);
    let mut expected: Vec<&str> = LOCATION_COMMANDS.to_vec();
    expected.push(TEARDOWN);
    assert_eq!(asked, expected);
    match result {
        Ok(Reply::Location(fields)) => {
            assert_eq!(fields.longitude, "-3.70");
            assert_eq!(fields.latitude, "40.41");
            assert!(fields.bearer_closed);
        }
        other => panic!("unexpected: {:?}", other),
    }
}

#[test]
fn coordinates_with_unacknowledged_close_still_succeed() {
    let script = location_script_until(5, lines(&["AT+SAPBR=0,1", "ERROR"]));
    let (_, result, _) = drive(Gsm::initialize(true).get_coordinates(true), script);
    match result {
        Ok(Reply::Location(fields)) => assert!(!fields.bearer_closed),
        other => panic!("unexpected: {:?}", other),
    }
}

#[test]
fn coordinates_failure_tears_down_bearer() {
    let mut script = location_script_until(4, lines(&["AT+CIPGSMLOC=1,1", "ERROR"]));
    script.push(ok("AT+SAPBR=0,1"));
    let (asked, result, _) = drive(Gsm::initialize(true).get_coordinates(true), script);
    assert_eq!(asked.last().unwrap(), TEARDOWN);
    assert_eq!(asked.iter().filter(|a| *a == TEARDOWN).count(), 1);
    assert_eq!(asked.len(), 6);
    let e = result.unwrap_err();
    assert!(matches!(e, GsmError::Rejected(Fault::Locate)));
    assert_eq!(e.kind(), ErrorKind::Other);
}

#[test]
fn every_failing_step_of_coordinates_tears_down_once() {
    let faults = [
        Fault::Attach,
        Fault::ConnectionType,
        Fault::AccessPoint,
        Fault::OpenBearer,
        Fault::Locate,
    ];
    for failing in 0..5 {
        for closing in 0..3 {
            let mut script = location_script_until(failing, lines(&["x", "ERROR"]));
            script.push(match closing {
                0 => ok("AT+SAPBR=0,1"),
                1 => lines(&["AT+SAPBR=0,1", "ERROR"]),
                _ => broken(),
            });
            let (asked, result, _) = drive(Gsm::initialize(true).get_coordinates(true), script);
            assert_eq!(asked.len(), failing + 2);
            assert_eq!(&asked[..failing + 1], &LOCATION_COMMANDS[..failing + 1]);
            assert_eq!(asked.last().unwrap(), TEARDOWN);
            assert_eq!(asked.iter().filter(|a| *a == TEARDOWN).count(), 1);
            match result {
                Err(GsmError::Rejected(fault)) => assert_eq!(fault, faults[failing]),
                other => panic!("unexpected: {:?}", other),
            }
        }
    }
}

#[test]
fn serial_failure_inside_coordinates_tears_down_once() {
    for failing in 0..5 {
        let mut script = location_script_until(failing, broken());
        script.push(ok("AT+SAPBR=0,1"));
        let (asked, result, _) = drive(Gsm::initialize(true).get_coordinates(true), script);
        assert_eq!(asked.iter().filter(|a| *a == TEARDOWN).count(), 1);
        assert_eq!(asked.last().unwrap(), TEARDOWN);
        assert!(matches!(result, Err(GsmError::Io(_))));
    }
    let script = location_script_until(5, broken());
    let (asked, result, _) = drive(Gsm::initialize(true).get_coordinates(true), script);
    assert_eq!(asked.iter().filter(|a| *a == TEARDOWN).count(), 1);
    assert!(matches!(result, Err(GsmError::Io(_))));
}

#[test]
fn coordinates_with_modem_off_touch_nothing() {
    let (asked, result, _) = drive(Gsm::initialize(true).get_coordinates(false), vec![]);
    assert!(asked.is_empty());
    assert!(matches!(result, Err(GsmError::Off)));
}

#[test]
fn event_that_answers_nothing_is_a_failed_step() {
    let (gsm, action) = Gsm::initialize(true).resume(Event::Done);
    assert!(matches!(action, Action::Finish(Err(GsmError::Unexpected))));
    assert_eq!(gsm.stage, Stage::Idle);
    let begin = Gsm::initialize(true).has_connectivity(true);
    let (_, result, _) = drive(begin, vec![Event::Status(true)]);
    assert!(matches!(result, Err(GsmError::Unexpected)));
    let begin = Gsm::initialize(true).get_coordinates(true);
    let (asked, result, _) = drive(begin, vec![Event::Done, Event::Line(None)]);
    assert_eq!(asked, vec!["T[0]AT+CGATT=1", TEARDOWN]);
    assert!(matches!(result, Err(GsmError::Unexpected)));
}

#[test]
fn session_serves_one_operation_after_another() {
    let begin = Gsm::initialize(true).get_battery_status(true);
    let script = vec![lines(&["AT+CBC", "+CBC: 0,85,4100", "OK"]), lines(&["AT+CADC?", "+CADC: 1,8050", "OK"])];
    let (_, _, gsm) = drive(begin, script);
    let (asked, result, gsm) = drive(gsm.has_connectivity(true), vec![lines(&["e", "+CREG: 0,1"])]);
    assert_eq!(asked, vec!["T[0]AT+CREG?"]);
    assert!(matches!(result, Ok(Reply::Registered(true))));
    let (_, result, _) = drive(gsm.send_sms(true, "a".repeat(161), "1".to_string()), vec![]);
    assert!(matches!(result, Err(GsmError::MessageTooLong)));
}
