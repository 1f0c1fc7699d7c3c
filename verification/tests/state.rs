use openstratos::error::Error;
use openstratos::flight::{boot, next_phase, Boot, Observation};
use openstratos::state::{ParseStateError, State};
use std::io;

const ALL: [State; 9] = [
    State::Initializing,
    State::AcquiringFix,
    State::FixAcquired,
    State::WaitingLaunch,
    State::GoingUp,
    State::GoingDown,
    State::Landed,
    State::ShutDown,
    State::SafeMode,
];

#[test]
fn every_name_parses_to_its_phase() {
    let names = [
        "Initializing",
        "AcquiringFix",
        "FixAcquired",
        "WaitingLaunch",
        "GoingUp",
        "GoingDown",
        "Landed",
        "ShutDown",
        "SafeMode",
    ];
    for (name, state) in names.iter().zip(ALL.iter()) {
        assert_eq!(State::from_str(name).unwrap(), *state);
        assert_eq!(state.record(), *name);
        assert_eq!(format!("{:?}", state), *name);
    }
}

#[test]
fn unknown_name_is_rejected_with_its_text() {
    let e = State::from_str("Flying").unwrap_err();
    assert_eq!(e.description(), "Could not parse Flying as a valid State");
    assert!(State::from_str("").is_err());
    assert!(State::from_str("goingup").is_err());
    assert!(State::from_str("GoingUp ").is_err());
    assert!(State::from_str("SafeModeX").is_err());
}

#[test]
fn parse_error_new_words_the_text() {
    let e = ParseStateError::new("x y");
    assert_eq!(e.description(), "Could not parse x y as a valid State");
}

#[test]
fn last_phase_is_read_from_trimmed_record() {
    assert_eq!(State::get_last(Ok("GoingDown".to_string())).unwrap(), State::GoingDown);
    assert_eq!(State::get_last(Ok("  Landed\n".to_string())).unwrap(), State::Landed);
    assert_eq!(State::get_last(Ok("\r\n\tShutDown \u{a0}".to_string())).unwrap(), State::ShutDown);
}

#[test]
fn last_phase_of_bad_record_is_parse_error() {
    match State::get_last(Ok(" Going Down ".to_string())) {
        Err(Error::ParseStateError(e)) => {
            assert_eq!(e.description(), "Could not parse Going Down as a valid State")
        }
        other => panic!("unexpected: {:?}", other),
    }
    let e = State::get_last(Ok(String::new())).unwrap_err();
    assert_eq!(e.description(), "Could not parse  as a valid State");
}

#[test]
fn last_phase_of_failed_read_is_io_error() {
    let failure = io::Error::new(io::ErrorKind::NotFound, "no record");
    match State::get_last(Err(failure)) {
        Err(Error::IOError(e)) => {
            assert_eq!(e.kind(), io::ErrorKind::NotFound);
            assert_eq!(Error::IOError(e).description(), "no record");
        }
        other => panic!("unexpected: {:?}", other),
    }
}

#[test]
fn error_from_conversions_keep_the_cause() {
    let from_parse: Error = ParseStateError::new("q").into();
    assert!(matches!(from_parse, Error::ParseStateError(_)));
    let from_io: Error = io::Error::new(io::ErrorKind::Other, "x").into();
    assert!(matches!(from_io, Error::IOError(_)));
}

#[test]
fn shared_phase_follows_a_persisted_phase() {
    let mut shared = State::Initializing;
    let done = State::modify_shared(Ok(State::AcquiringFix), &mut shared);
    assert_eq!(done.unwrap(), State::AcquiringFix);
    assert_eq!(shared, State::AcquiringFix);
}

#[test]
fn shared_phase_stays_when_persisting_failed() {
    let mut shared = State::GoingUp;
    let failure = io::Error::new(io::ErrorKind::PermissionDenied, "read-only");
    let done = State::modify_shared(Err(failure), &mut shared);
    assert_eq!(done.unwrap_err().kind(), io::ErrorKind::PermissionDenied);
    assert_eq!(shared, State::GoingUp);
}

#[test]
fn moves_go_forward_or_to_safe_mode() {
    for (i, from) in ALL.iter().enumerate() {
        assert_eq!(from.order() as usize, i);
        for (j, to) in ALL.iter().enumerate() {
            let terminal = *from == State::ShutDown || *from == State::SafeMode;
            let expected = !terminal && (*to == State::SafeMode || i < j);
            assert_eq!(from.can_become(*to), expected, "{:?} -> {:?}", from, to);
        }
    }
    assert!(State::Initializing.can_become(State::ShutDown));
    assert!(!State::GoingDown.can_become(State::GoingUp));
    assert!(!State::Landed.can_become(State::Landed));
    assert!(State::Landed.can_become(State::SafeMode));
    assert!(!State::SafeMode.can_become(State::Initializing));
}

#[test]
fn controller_advances_one_phase_per_observation() {
    assert_eq!(next_phase(State::AcquiringFix, Observation::FixObtained), Some(State::FixAcquired));
    assert_eq!(next_phase(State::FixAcquired, Observation::ReadyForLaunch), Some(State::WaitingLaunch));
    assert_eq!(next_phase(State::WaitingLaunch, Observation::Ascending), Some(State::GoingUp));
    assert_eq!(next_phase(State::GoingUp, Observation::Descending), Some(State::GoingDown));
    assert_eq!(next_phase(State::GoingDown, Observation::Settled), Some(State::Landed));
    assert_eq!(next_phase(State::GoingUp, Observation::Settled), None);
    assert_eq!(next_phase(State::Initializing, Observation::FixObtained), None);
    assert_eq!(next_phase(State::Landed, Observation::Settled), None);
    assert_eq!(next_phase(State::SafeMode, Observation::FixObtained), None);
}

#[test]
fn controller_only_decides_legal_moves() {
    let seen = [
        Observation::FixObtained,
        Observation::ReadyForLaunch,
        Observation::Ascending,
        Observation::Descending,
        Observation::Settled,
    ];
    for from in ALL.iter() {
        for s in seen.iter() {
            if let Some(next) = next_phase(*from, *s) {
                assert!(from.can_become(next));
                assert_eq!(next.order(), from.order() + 1);
            }
        }
    }
}

#[test]
fn record_of_earlier_run_means_recovery() {
    assert_eq!(boot(true), Boot::Recovery);
    assert_eq!(boot(false), Boot::Mission);
}
