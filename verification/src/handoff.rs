//! The connection orchestrator as a state machine: what one upgrade attempt
//! does next, given where it stands and what just happened. The caller
//! performs the action and reports the next event.

use vstd::prelude::*;

verus! {

/// Where an upgrade attempt stands.
#[derive(Clone, Copy, Debug, PartialEq, Eq, Structural)]
pub enum Phase {
    /// The request was accepted; nothing is scheduled yet.
    Negotiated,
    /// The hand-off is scheduled and waits for the raw byte stream.
    AwaitingTransport,
    /// The raw byte stream is there; the connection is being built on it.
    Framed,
    /// The per-connection routine runs.
    RoutineRunning,
    /// The routine has returned. Terminal.
    Closed,
    /// The transport never came. Terminal.
    Failed,
}

/// What the caller reports.
#[derive(Clone, Copy, Debug, PartialEq, Eq, Structural)]
pub enum Event {
    /// The hand-off was scheduled beside the response.
    Scheduled,
    /// The pending transport became a raw byte stream.
    TransportReady,
    /// The pending transport failed.
    TransportFailed,
    /// The connection wrapper was built.
    ConnectionBuilt,
    /// The per-connection routine returned.
    RoutineReturned,
}

/// What the caller is to do next.
#[derive(Clone, Copy, Debug, PartialEq, Eq, Structural)]
pub enum Action {
    /// Await the pending transport.
    AwaitTransport,
    /// Build the connection wrapper on the raw byte stream.
    BuildConnection,
    /// Run the per-connection routine and await its return.
    RunRoutine,
    /// Hand the transport error to the failure hook.
    ReportFailure,
    /// Drop the connection.
    Release,
    /// The event was out of place: do nothing.
    Ignore,
}

/// The transition function. An event that does not belong to the phase
/// changes nothing, so the two terminal phases are never left.
pub open spec fn next(phase: Phase, event: Event) -> (Phase, Action) {
    match (phase, event) {
        (Phase::Negotiated, Event::Scheduled) => (Phase::AwaitingTransport, Action::AwaitTransport),
        (Phase::AwaitingTransport, Event::TransportReady) => (
            Phase::Framed,
            Action::BuildConnection,
        ),
        (Phase::AwaitingTransport, Event::TransportFailed) => (
            Phase::Failed,
            Action::ReportFailure,
        ),
        (Phase::Framed, Event::ConnectionBuilt) => (Phase::RoutineRunning, Action::RunRoutine),
        (Phase::RoutineRunning, Event::RoutineReturned) => (Phase::Closed, Action::Release),
        _ => (phase, Action::Ignore),
    }
}

/// Whether a phase is terminal.
pub open spec fn is_terminal(phase: Phase) -> bool {
    phase == Phase::Closed || phase == Phase::Failed
}

/// The phase reached from `phase` after `events`, in order.
pub open spec fn phase_after(phase: Phase, events: Seq<Event>) -> Phase
    decreases events.len(),
{
    if events.len() == 0 {
        phase
    } else {
        phase_after(next(phase, events[0]).0, events.drop_first())
    }
}

/// How often `action` is asked for on the way from `phase` through
/// `events`.
pub open spec fn times_asked(phase: Phase, events: Seq<Event>, action: Action) -> nat
    decreases events.len(),
{
    if events.len() == 0 {
        0
    } else {
        let (then, asked) = next(phase, events[0]);
        let here: nat = if asked == action {
            1
        } else {
            0
        };
        here + times_asked(then, events.drop_first(), action)
    }
}

/// Decides what an upgrade attempt does next.
pub fn step(phase: Phase, event: Event) -> (decision: (Phase, Action))
    ensures
        decision == next(phase, event),
{
    match (phase, event) {
        (Phase::Negotiated, Event::Scheduled) => (Phase::AwaitingTransport, Action::AwaitTransport),
        (Phase::AwaitingTransport, Event::TransportReady) => (
            Phase::Framed,
            Action::BuildConnection,
        ),
        (Phase::AwaitingTransport, Event::TransportFailed) => (
            Phase::Failed,
            Action::ReportFailure,
        ),
        (Phase::Framed, Event::ConnectionBuilt) => (Phase::RoutineRunning, Action::RunRoutine),
        (Phase::RoutineRunning, Event::RoutineReturned) => (Phase::Closed, Action::Release),
        _ => (phase, Action::Ignore),
    }
}

/// Whether an attempt in `phase` has left the state machine.
pub fn is_finished(phase: Phase) -> (finished: bool)
    ensures
        finished == is_terminal(phase),
{
    match phase {
        Phase::Closed | Phase::Failed => true,
        _ => false,
    }
}

/// No retries: once an attempt is closed or has failed, no event moves it,
/// and nothing but `Ignore` is ever asked for again.
pub proof fn lemma_terminal_is_final(phase: Phase, events: Seq<Event>, action: Action)
    requires
        is_terminal(phase),
    ensures
        phase_after(phase, events) == phase,
        action != Action::Ignore ==> times_asked(phase, events, action) == 0,
    decreases events.len(),
{
    if events.len() > 0 {
        lemma_terminal_is_final(phase, events.drop_first(), action);
    }
}

/// The failure hook and the routine exclude each other, whatever is
/// reported from whatever phase: the failure is reported at most once, the
/// routine is run at most once, and never both. The failure is reported
/// only while the transport is still awaited, and exactly when the attempt
/// then ends as failed; the routine is run only before it has been, and
/// never in an attempt that ends as failed.
pub proof fn lemma_hook_and_routine(phase: Phase, events: Seq<Event>)
    ensures
        times_asked(phase, events, Action::ReportFailure) + times_asked(
            phase,
            events,
            Action::RunRoutine,
        ) <= 1,
        times_asked(phase, events, Action::ReportFailure) == 1 ==> {
            &&& phase == Phase::Negotiated || phase == Phase::AwaitingTransport
            &&& phase_after(phase, events) == Phase::Failed
        },
        phase != Phase::Failed && phase_after(phase, events) == Phase::Failed ==> times_asked(
            phase,
            events,
            Action::ReportFailure,
        ) == 1,
        times_asked(phase, events, Action::RunRoutine) == 1 ==> {
            &&& phase == Phase::Negotiated || phase == Phase::AwaitingTransport || phase
                == Phase::Framed
            &&& phase_after(phase, events) != Phase::Failed
        },
    decreases events.len(),
{
    if events.len() > 0 {
        let then = next(phase, events[0]).0;
        lemma_hook_and_routine(then, events.drop_first());
        if then == Phase::Failed {
            lemma_terminal_is_final(then, events.drop_first(), Action::ReportFailure);
            lemma_terminal_is_final(then, events.drop_first(), Action::RunRoutine);
        }
    }
}

} // verus!
