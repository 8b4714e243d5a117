use axum_tws::handoff::{is_finished, step, Action, Event, Phase};

const PHASES: [Phase; 6] = [
    Phase::Negotiated,
    Phase::AwaitingTransport,
    Phase::Framed,
    Phase::RoutineRunning,
    Phase::Closed,
    Phase::Failed,
];

const EVENTS: [Event; 5] = [
    Event::Scheduled,
    Event::TransportReady,
    Event::TransportFailed,
    Event::ConnectionBuilt,
    Event::RoutineReturned,
];

fn run(start: Phase, events: &[Event]) -> (Phase, Vec<Action>) {
    let mut phase = start;
    let mut actions = Vec::new();
    for event in events {
        let (next, action) = step(phase, *event);
        phase = next;
        actions.push(action);
    }
    (phase, actions)
}

#[test]
fn success_path_runs_through_every_phase() {
    assert_eq!(
        step(Phase::Negotiated, Event::Scheduled),
        (Phase::AwaitingTransport, Action::AwaitTransport)
    );
    assert_eq!(
        step(Phase::AwaitingTransport, Event::TransportReady),
        (Phase::Framed, Action::BuildConnection)
    );
    assert_eq!(
        step(Phase::Framed, Event::ConnectionBuilt),
        (Phase::RoutineRunning, Action::RunRoutine)
    );
    assert_eq!(
        step(Phase::RoutineRunning, Event::RoutineReturned),
        (Phase::Closed, Action::Release)
    );
}

#[test]
fn failure_path_reports_once_and_never_runs_the_routine() {
    let (phase, actions) = run(
        Phase::Negotiated,
        &[
            Event::Scheduled,
            Event::TransportFailed,
            Event::TransportFailed,
            Event::TransportReady,
            Event::ConnectionBuilt,
            Event::RoutineReturned,
        ],
    );
    assert_eq!(phase, Phase::Failed);
    assert_eq!(
        actions,
        vec![
            Action::AwaitTransport,
            Action::ReportFailure,
            Action::Ignore,
            Action::Ignore,
            Action::Ignore,
            Action::Ignore,
        ]
    );
}

#[test]
fn an_event_out_of_place_changes_nothing() {
    assert_eq!(
        step(Phase::Negotiated, Event::TransportReady),
        (Phase::Negotiated, Action::Ignore)
    );
    assert_eq!(
        step(Phase::Framed, Event::TransportFailed),
        (Phase::Framed, Action::Ignore)
    );
    assert_eq!(
        step(Phase::RoutineRunning, Event::Scheduled),
        (Phase::RoutineRunning, Action::Ignore)
    );
}

#[test]
fn terminal_phases_are_never_left() {
    for event in EVENTS {
        assert_eq!(step(Phase::Closed, event), (Phase::Closed, Action::Ignore));
        assert_eq!(step(Phase::Failed, event), (Phase::Failed, Action::Ignore));
    }
}

#[test]
fn only_closed_and_failed_are_finished() {
    assert!(is_finished(Phase::Closed));
    assert!(is_finished(Phase::Failed));
    assert!(!is_finished(Phase::Negotiated));
    assert!(!is_finished(Phase::AwaitingTransport));
    assert!(!is_finished(Phase::Framed));
    assert!(!is_finished(Phase::RoutineRunning));
}

#[test]
fn hook_and_routine_exclude_each_other_on_every_short_trace() {
    for start in PHASES {
        for a in EVENTS {
            for b in EVENTS {
                for c in EVENTS {
                    for d in EVENTS {
                        let (end, actions) = run(start, &[a, b, c, d]);
                        let failures =
                            actions.iter().filter(|x| **x == Action::ReportFailure).count();
                        let routines =
                            actions.iter().filter(|x| **x == Action::RunRoutine).count();
                        assert!(failures + routines <= 1);
                        if failures == 1 {
                            assert_eq!(end, Phase::Failed);
                        }
                        if end == Phase::Failed && start != Phase::Failed {
                            assert_eq!(failures, 1);
                        }
                    }
                }
            }
        }
    }
}
