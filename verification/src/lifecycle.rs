//! Starting and stopping: the order in which a termination signal takes the
//! listeners down, what an early exit of a listener means, and what the
//! readiness probe answers meanwhile.

use crate::text::joined;
use vstd::prelude::*;

verus! {

/// What the readiness probe answers.
#[derive(Clone, Copy, Debug, PartialEq, Eq, Structural)]
pub enum Readiness {
    Ready,
    NotReady,
}

impl Readiness {
    /// Ready until shutdown has begun, not ready from that moment on.
    pub fn of(shutdown_begun: bool) -> (readiness: Readiness)
        ensures
            readiness == if shutdown_begun {
                Readiness::NotReady
            } else {
                Readiness::Ready
            },
    {
        if shutdown_begun {
            Readiness::NotReady
        } else {
            Readiness::Ready
        }
    }

    /// The status code of the answer: 200 when ready, 500 when not.
    pub fn status_code(&self) -> (code: u16)
        ensures
            code == match self {
                Readiness::Ready => 200u16,
                Readiness::NotReady => 500u16,
            },
    {
        match self {
            Readiness::Ready => 200,
            Readiness::NotReady => 500,
        }
    }

    /// The body of the answer, sent as plain text.
    pub fn body(&self) -> (text: &'static str)
        ensures
            text@ == match self {
                Readiness::Ready => "Ok"@,
                Readiness::NotReady => "NotReady"@,
            },
    {
        match self {
            Readiness::Ready => "Ok",
            Readiness::NotReady => "NotReady",
        }
    }
}

/// How a task ended.
#[derive(Clone, Debug, PartialEq, Eq)]
pub enum TaskOutcome {
    /// It returned without a failure.
    Exited,
    /// It returned the failure with this text.
    Failed(String),
    /// It did not run to its end: it panicked or was aborted.
    Aborted(String),
}

pub enum TaskOutcomeView {
    Exited,
    Failed(Seq<char>),
    Aborted(Seq<char>),
}

impl View for TaskOutcome {
    type V = TaskOutcomeView;

    open spec fn view(&self) -> TaskOutcomeView {
        match self {
            TaskOutcome::Exited => TaskOutcomeView::Exited,
            TaskOutcome::Failed(e) => TaskOutcomeView::Failed(e@),
            TaskOutcome::Aborted(e) => TaskOutcomeView::Aborted(e@),
        }
    }
}

/// The line that reports how a task ended.
#[derive(Clone, Debug, PartialEq, Eq)]
pub struct ExitReport {
    /// Whether the line reports a failure.
    pub failure: bool,
    pub message: String,
}

/// The text of the report on `task`.
pub open spec fn exit_message(task: Seq<char>, out: TaskOutcomeView) -> Seq<char> {
    match out {
        TaskOutcomeView::Exited => task + " exited"@,
        TaskOutcomeView::Failed(e) => task + " failed with error: "@ + e,
        TaskOutcomeView::Aborted(e) => task + " task failed to complete: "@ + e,
    }
}

/// Reports how the task named `task` ended.
pub fn exit(task: &str, out: &TaskOutcome) -> (report: ExitReport)
    ensures
        report.message@ == exit_message(task@, out@),
        report.failure == !(out is Exited),
{
    match out {
        TaskOutcome::Exited => ExitReport { failure: false, message: joined(task, " exited") },
        TaskOutcome::Failed(e) => {
            let mut message = joined(task, " failed with error: ");
            message.append(e.as_str());
            ExitReport { failure: true, message }
        },
        TaskOutcome::Aborted(e) => {
            let mut message = joined(task, " task failed to complete: ");
            message.append(e.as_str());
            ExitReport { failure: true, message }
        },
    }
}

/// The two listeners that every run mode starts.
#[derive(Clone, Copy, Debug, PartialEq, Eq, Structural)]
pub enum Listener {
    /// The metrics and readiness listener.
    Metrics,
    /// The primary listener: credential endpoint or admission endpoint.
    App,
}

impl Listener {
    /// The name under which the listener is reported.
    pub fn name(&self) -> (name: &'static str)
        ensures
            name@ == match self {
                Listener::Metrics => "metrics"@,
                Listener::App => "app"@,
            },
    {
        match self {
            Listener::Metrics => "metrics",
            Listener::App => "app",
        }
    }
}

/// Where the process stands between start and exit.
#[derive(Clone, Copy, Debug, PartialEq, Eq, Structural)]
pub enum Phase {
    /// Both listeners serve.
    Running,
    /// A termination signal came: the probe answers not ready, the
    /// listeners still serve while the grace period runs.
    Draining,
    /// The grace period is over: both listeners were told to stop and are
    /// waited for.
    Stopping,
    /// The process exits.
    Done,
}

/// What the orchestrator is told.
#[derive(Clone, Copy, Debug, PartialEq, Eq, Structural)]
pub enum LifecycleEvent {
    /// A termination signal arrived.
    Signal,
    /// A listener ended, with or without a failure.
    ListenerExited(Listener),
    /// The grace period has run out.
    GraceElapsed,
    /// Both listeners have ended.
    Joined,
}

/// What the orchestrator is to do next.
#[derive(Clone, Copy, Debug, PartialEq, Eq, Structural)]
pub enum LifecycleAction {
    /// Go on waiting for the next event.
    Wait,
    /// Make the probe answer not ready at once, and let this many seconds pass.
    Drain { grace_seconds: u64 },
    /// Tell both listeners to stop, at the same time, and wait for both.
    CancelAndJoin,
    /// Exit with success: the shutdown was clean.
    ExitClean,
    /// Exit with a failure: a listener ended that should have served on.
    ExitFailed(Listener),
}

/// The phase after `event` in `phase`.
pub open spec fn next_phase(phase: Phase, event: LifecycleEvent) -> Phase {
    match (phase, event) {
        (Phase::Running, LifecycleEvent::Signal) => Phase::Draining,
        (Phase::Running, LifecycleEvent::ListenerExited(_)) => Phase::Done,
        (Phase::Draining, LifecycleEvent::GraceElapsed) => Phase::Stopping,
        (Phase::Stopping, LifecycleEvent::Joined) => Phase::Done,
        _ => phase,
    }
}

/// What is to be done on `event` in `phase`. An event that does not belong
/// to the phase changes nothing.
pub open spec fn action_on(phase: Phase, event: LifecycleEvent, grace_seconds: u64) -> LifecycleAction {
    match (phase, event) {
        (Phase::Running, LifecycleEvent::Signal) => LifecycleAction::Drain { grace_seconds },
        (Phase::Running, LifecycleEvent::ListenerExited(listener)) => LifecycleAction::ExitFailed(
            listener,
        ),
        (Phase::Draining, LifecycleEvent::GraceElapsed) => LifecycleAction::CancelAndJoin,
        (Phase::Stopping, LifecycleEvent::Joined) => LifecycleAction::ExitClean,
        _ => LifecycleAction::Wait,
    }
}

/// What the probe answers in `phase`: ready while running, and never again
/// once shutdown has begun.
pub open spec fn readiness_in(phase: Phase) -> Readiness {
    if phase == Phase::Running {
        Readiness::Ready
    } else {
        Readiness::NotReady
    }
}

/// One step of the orchestrator: the phase after `event`, and what to do.
pub fn serve(phase: Phase, event: LifecycleEvent, grace_seconds: u64) -> (next: (
    Phase,
    LifecycleAction,
))
    ensures
        next.0 == next_phase(phase, event),
        next.1 == action_on(phase, event, grace_seconds),
{
    match (phase, event) {
        (Phase::Running, LifecycleEvent::Signal) => (
            Phase::Draining,
            LifecycleAction::Drain { grace_seconds },
        ),
        (Phase::Running, LifecycleEvent::ListenerExited(listener)) => (
            Phase::Done,
            LifecycleAction::ExitFailed(listener),
        ),
        (Phase::Draining, LifecycleEvent::GraceElapsed) => (
            Phase::Stopping,
            LifecycleAction::CancelAndJoin,
        ),
        (Phase::Stopping, LifecycleEvent::Joined) => (Phase::Done, LifecycleAction::ExitClean),
        _ => (phase, LifecycleAction::Wait),
    }
}

/// What the probe answers in `phase`.
pub fn ready(phase: Phase) -> (readiness: Readiness)
    ensures
        readiness == readiness_in(phase),
{
    Readiness::of(phase != Phase::Running)
}

/// The rank of a phase in the order of a shutdown.
pub open spec fn rank(phase: Phase) -> int {
    match phase {
        Phase::Running => 0,
        Phase::Draining => 1,
        Phase::Stopping => 2,
        Phase::Done => 3,
    }
}

/// A shutdown only moves forward: no event takes the process back to an
/// earlier phase, so the probe never answers ready again once it answered
/// not ready.
pub proof fn lemma_shutdown_is_ordered(phase: Phase, event: LifecycleEvent)
    ensures
        rank(next_phase(phase, event)) >= rank(phase),
        readiness_in(phase) == Readiness::NotReady ==> readiness_in(next_phase(phase, event))
            == Readiness::NotReady,
{
}

/// The listeners are told to stop only after the grace period, and the
/// grace period starts only on a signal: cancellation is reached from
/// running by a signal followed by the end of the grace period, and in no
/// other way.
pub proof fn lemma_cancel_after_grace(phase: Phase, event: LifecycleEvent, grace_seconds: u64)
    ensures
        action_on(phase, event, grace_seconds) == LifecycleAction::CancelAndJoin <==> phase
            == Phase::Draining && event == LifecycleEvent::GraceElapsed,
        next_phase(phase, event) == Phase::Draining && phase != Phase::Draining ==> phase
            == Phase::Running && event == LifecycleEvent::Signal,
        action_on(phase, event, grace_seconds) == LifecycleAction::ExitClean <==> phase
            == Phase::Stopping && event == LifecycleEvent::Joined,
{
}

/// A listener that ends while the process is running is fatal: the process
/// exits with a failure that names it.
pub proof fn lemma_early_exit_is_fatal(listener: Listener, grace_seconds: u64)
    ensures
        action_on(Phase::Running, LifecycleEvent::ListenerExited(listener), grace_seconds)
            == LifecycleAction::ExitFailed(listener),
        next_phase(Phase::Running, LifecycleEvent::ListenerExited(listener)) == Phase::Done,
{
}

} // verus!
