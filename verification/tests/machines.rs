use openstratos::activity::{Battery, Outcome, Task, PAUSE, REST};
use openstratos::recovery::{recovery_message, Duty, Recovery, Report};
use openstratos::state::State;
use openstratos::supervisor::{directories, Activity, Feedback, Order, Supervisor};

fn battery_tasks(outcomes: &[Outcome]) -> Vec<Task> {
    let (mut stage, first) = Battery::begin();
    let mut tasks = vec![first];
    for outcome in outcomes {
        let next = stage.resume(*outcome);
        stage = next.0;
        tasks.push(next.1);
    }
    tasks
}

#[test]
fn battery_cycle_with_modem_on() {
    let tasks = battery_tasks(&[
        Outcome::Phase(State::GoingUp),
        Outcome::Done,
        Outcome::Status(true),
        Outcome::Checked(true),
        Outcome::Done,
        Outcome::Done,
        Outcome::Done,
        Outcome::Phase(State::ShutDown),
    ]);
    assert_eq!(
        tasks,
        vec![
            Task::ObservePhase,
            Task::AcquireModem,
            Task::ReadStatus,
            Task::CheckBattery,
            Task::ReleaseModem,
            Task::Record,
            Task::Sleep(90),
            Task::ObservePhase,
            Task::Exit,
        ]
    );
    assert_eq!(PAUSE, 90);
}

#[test]
fn battery_cycle_with_modem_off() {
    let tasks = battery_tasks(&[
        Outcome::Phase(State::Initializing),
        Outcome::Done,
        Outcome::Status(false),
        Outcome::Done,
        Outcome::Done,
        Outcome::Checked(true),
        Outcome::Done,
        Outcome::Done,
        Outcome::Done,
        Outcome::Done,
    ]);
    assert_eq!(
        tasks,
        vec![
            Task::ObservePhase,
            Task::AcquireModem,
            Task::ReadStatus,
            Task::Sleep(900),
            Task::PowerOn,
            Task::CheckBattery,
            Task::PowerOff,
            Task::ReleaseModem,
            Task::Record,
            Task::Sleep(90),
            Task::ObservePhase,
        ]
    );
    assert_eq!(REST, 15 * 60);
}

#[test]
fn battery_failed_check_backs_off_without_record() {
    let tasks = battery_tasks(&[
        Outcome::Phase(State::Landed),
        Outcome::Done,
        Outcome::Status(true),
        Outcome::Checked(false),
        Outcome::Done,
        Outcome::Done,
    ]);
    assert_eq!(
        &tasks[3..],
        &[Task::CheckBattery, Task::ReleaseModem, Task::Sleep(90), Task::ObservePhase]
    );
    let tasks = battery_tasks(&[
        Outcome::Phase(State::Landed),
        Outcome::Done,
        Outcome::Status(false),
        Outcome::Done,
        Outcome::Done,
        Outcome::Checked(false),
        Outcome::Done,
    ]);
    assert_eq!(&tasks[5..], &[Task::CheckBattery, Task::ReleaseModem, Task::Sleep(90)]);
}

#[test]
fn battery_ends_on_shut_down_and_stays_ended() {
    let (stage, task) = Battery::begin().0.resume(Outcome::Phase(State::ShutDown));
    assert_eq!((stage, task), (Battery::Ended, Task::Exit));
    for outcome in [Outcome::Done, Outcome::Status(true), Outcome::Checked(true), Outcome::Phase(State::GoingUp)] {
        assert_eq!(stage.resume(outcome), (Battery::Ended, Task::Exit));
    }
    let (stage, task) = Battery::begin().0.resume(Outcome::Phase(State::SafeMode));
    assert_eq!((stage, task), (Battery::Acquiring, Task::AcquireModem));
}

#[test]
fn battery_ignores_what_does_not_answer() {
    assert_eq!(Battery::Probing.resume(Outcome::Done), (Battery::Probing, Task::ReadStatus));
    assert_eq!(Battery::Observing.resume(Outcome::Done), (Battery::Observing, Task::ObservePhase));
    assert_eq!(Battery::Pausing.task(), Task::Sleep(90));
}

fn recovery_duties(reports: &[Report]) -> Vec<Duty> {
    let (mut stage, first) = Recovery::begin();
    let mut duties = vec![first];
    for report in reports {
        let next = stage.resume(*report);
        stage = next.0;
        duties.push(next.1);
    }
    duties
}

#[test]
fn safe_mode_clears_record_after_message_was_sent() {
    let duties = recovery_duties(&[
        Report::Preserved(true),
        Report::Reachable(true),
        Report::Sent(true),
        Report::Cleared(true),
    ]);
    assert_eq!(
        duties,
        vec![
            Duty::PreserveArtifacts,
            Duty::ProbeModem,
            Duty::SendPosition,
            Duty::ClearRecord,
            Duty::Finish { cleared: true },
        ]
    );
}

#[test]
fn safe_mode_keeps_record_when_a_duty_fails() {
    let kept = Duty::Finish { cleared: false };
    assert_eq!(recovery_duties(&[Report::Preserved(false)]).last(), Some(&kept));
    assert_eq!(
        recovery_duties(&[Report::Preserved(true), Report::Reachable(false)]).last(),
        Some(&kept)
    );
    let duties = recovery_duties(&[Report::Preserved(true), Report::Reachable(true), Report::Sent(false)]);
    assert_eq!(duties.last(), Some(&kept));
    assert!(!duties.contains(&Duty::ClearRecord));
    let duties = recovery_duties(&[
        Report::Preserved(true),
        Report::Reachable(true),
        Report::Sent(true),
        Report::Cleared(false),
    ]);
    assert_eq!(duties.last(), Some(&kept));
}

#[test]
fn safe_mode_ignores_what_does_not_answer() {
    assert_eq!(
        Recovery::Preserving.resume(Report::Sent(true)),
        (Recovery::Preserving, Duty::PreserveArtifacts)
    );
    assert_eq!(
        Recovery::Over { cleared: false }.resume(Report::Cleared(true)),
        (Recovery::Over { cleared: false }, Duty::Finish { cleared: false })
    );
    assert_eq!(Recovery::Clearing.duty(), Duty::ClearRecord);
}

#[test]
fn recovery_message_holds_the_position() {
    let message = recovery_message("40.416775,-3.703790");
    assert_eq!(message, "OpenStratos in safe mode. Last known position: 40.416775,-3.703790");
    assert!(message.chars().count() <= 160);
}

fn orders(feedback: &[Feedback]) -> Vec<Order> {
    let (mut stage, first) = Supervisor::begin();
    let mut orders = vec![first];
    for f in feedback {
        let next = stage.resume(*f);
        stage = next.0;
        orders.push(next.1);
    }
    orders
}

#[test]
fn cold_boot_happy_path() {
    let mut feedback = vec![Feedback::Done; 10];
    feedback.extend([Feedback::Joined { clean: true }; 3]);
    assert_eq!(
        orders(&feedback),
        vec![
            Order::PrepareDirectories,
            Order::Transition(State::Initializing),
            Order::InstallLog,
            Order::Spawn(Activity::System),
            Order::OpenModem,
            Order::Spawn(Activity::Battery),
            Order::Spawn(Activity::Pictures),
            Order::Transition(State::AcquiringFix),
            Order::Fly,
            Order::Transition(State::ShutDown),
            Order::Join(Activity::Pictures),
            Order::Join(Activity::Battery),
            Order::Join(Activity::System),
            Order::Finish,
        ]
    );
}

#[test]
fn panicked_activity_is_reported_and_the_rest_joined() {
    let mut feedback = vec![Feedback::Done; 10];
    feedback.extend([
        Feedback::Joined { clean: true },
        Feedback::Joined { clean: false },
        Feedback::Done,
        Feedback::Joined { clean: false },
        Feedback::Failed,
    ]);
    let all = orders(&feedback);
    assert_eq!(
        &all[10..],
        &[
            Order::Join(Activity::Pictures),
            Order::Join(Activity::Battery),
            Order::ReportPanic(Activity::Battery),
            Order::Join(Activity::System),
            Order::ReportPanic(Activity::System),
            Order::Finish,
        ]
    );
}

#[test]
fn failure_while_bringing_up_aborts() {
    for done in 0..10 {
        let mut feedback = vec![Feedback::Done; done];
        feedback.push(Feedback::Failed);
        feedback.push(Feedback::Done);
        let all = orders(&feedback);
        assert_eq!(all[done + 1], Order::Abort);
        assert_eq!(all[done + 2], Order::Abort);
        assert!(!all.iter().any(|o| matches!(o, Order::Join(_) | Order::Finish)));
    }
}

#[test]
fn supervisor_ignores_what_does_not_answer() {
    assert_eq!(
        Supervisor::Flying.resume(Feedback::Joined { clean: false }),
        (Supervisor::Flying, Order::Fly)
    );
    assert_eq!(
        Supervisor::Joining(Activity::System).resume(Feedback::Done),
        (Supervisor::Joining(Activity::System), Order::Join(Activity::System))
    );
    assert_eq!(Supervisor::Finished.resume(Feedback::Failed), (Supervisor::Finished, Order::Finish));
    assert_eq!(Supervisor::Modem.order(), Order::OpenModem);
}

#[test]
fn directories_come_parents_first() {
    let list = directories();
    assert_eq!(
        list,
        vec![
            "data",
            "data/logs",
            "data/logs/main",
            "data/logs/system",
            "data/logs/camera",
            "data/logs/GPS",
            "data/logs/GSM",
        ]
    );
    for (k, dir) in list.iter().enumerate() {
        if let Some(cut) = dir.rfind('/') {
            assert!(list[..k].contains(&&dir[..cut]));
        }
    }
}
