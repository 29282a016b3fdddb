//! The loop that keeps a watch on a configuration source, as a machine: it
//! is told what happened and says what to do next. The loop that drives it
//! never ends by itself; only cancellation stops it.

use vstd::prelude::*;

verus! {

/// Where the loop stands.
#[derive(Clone, Copy, Debug, PartialEq, Eq, Structural)]
pub enum WatchState {
    /// There is no watcher; one is being created.
    Idle,
    /// There is a watcher; the path is being put under watch.
    Created,
    /// The path is under watch; the next notification is awaited.
    Watching,
    /// The source changed; it is being loaded again.
    Reloading,
    /// The loop was cancelled.
    Stopped,
}

/// What a notification says happened to the source.
#[derive(Clone, Copy, Debug, PartialEq, Eq, Structural)]
pub enum ChangeKind {
    /// The content was modified.
    Modify,
    /// The source was renamed away, as when it is replaced whole.
    Rename,
    /// The source was removed.
    Remove,
    /// Anything else.
    Other,
}

/// What the loop is told.
#[derive(Clone, Copy, Debug, PartialEq, Eq, Structural)]
pub enum WatchEvent {
    WatcherCreated,
    WatcherFailed,
    PathWatched,
    PathRefused,
    Changed(ChangeKind),
    /// The watcher reported a failure of its own.
    WatcherError,
    /// The watcher is gone: no notification will come any more.
    ChannelClosed,
    /// The source was loaded again, or could not be; either way it is done.
    Reloaded,
    Cancelled,
}

/// What the loop is to do next.
#[derive(Clone, Copy, Debug, PartialEq, Eq, Structural)]
pub enum WatchAction {
    /// Drop any watcher there is and create a new one.
    CreateWatcher,
    /// Put the path under watch.
    WatchPath,
    /// Wait for the next notification.
    NextEvent,
    /// Load the source again and hand the outcome to the store.
    Reload,
    /// End the loop.
    Stop,
}

/// The action that a state is waiting on.
pub open spec fn pending(state: WatchState) -> WatchAction {
    match state {
        WatchState::Idle => WatchAction::CreateWatcher,
        WatchState::Created => WatchAction::WatchPath,
        WatchState::Watching => WatchAction::NextEvent,
        WatchState::Reloading => WatchAction::Reload,
        WatchState::Stopped => WatchAction::Stop,
    }
}

/// The state after `event` in `state`. Cancellation stops the loop, and a
/// stopped loop stays stopped. A removal, a rename, a lost watcher, a
/// refused path and a failed creation all lead back to creating a watcher. So does an event
/// that does not belong to the state: the loop starts over and goes on.
pub open spec fn next_state(state: WatchState, event: WatchEvent) -> WatchState {
    if state == WatchState::Stopped || event == WatchEvent::Cancelled {
        WatchState::Stopped
    } else {
        match (state, event) {
            (WatchState::Idle, WatchEvent::WatcherCreated) => WatchState::Created,
            (WatchState::Created, WatchEvent::PathWatched) => WatchState::Watching,
            (WatchState::Watching, WatchEvent::Changed(ChangeKind::Modify)) => WatchState::Reloading,
            (WatchState::Watching, WatchEvent::Changed(ChangeKind::Other)) => WatchState::Watching,
            (WatchState::Watching, WatchEvent::WatcherError) => WatchState::Watching,
            (WatchState::Reloading, WatchEvent::Reloaded) => WatchState::Watching,
            _ => WatchState::Idle,
        }
    }
}

/// The state in which every loop starts, waiting for its first watcher.
pub fn start() -> (begin: (WatchState, WatchAction))
    ensures
        begin == (WatchState::Idle, WatchAction::CreateWatcher),
{
    (WatchState::Idle, WatchAction::CreateWatcher)
}

/// One step of the loop: the state after `event`, and what to do next.
pub fn step(state: WatchState, event: WatchEvent) -> (next: (WatchState, WatchAction))
    ensures
        next.0 == next_state(state, event),
        next.1 == pending(next.0),
{
    if state == WatchState::Stopped || event == WatchEvent::Cancelled {
        return (WatchState::Stopped, WatchAction::Stop);
    }
    match (state, event) {
        (WatchState::Idle, WatchEvent::WatcherCreated) => (
            WatchState::Created,
            WatchAction::WatchPath,
        ),
        (WatchState::Created, WatchEvent::PathWatched) => (
            WatchState::Watching,
            WatchAction::NextEvent,
        ),
        (WatchState::Watching, WatchEvent::Changed(ChangeKind::Modify)) => (
            WatchState::Reloading,
            WatchAction::Reload,
        ),
        (WatchState::Watching, WatchEvent::Changed(ChangeKind::Other)) => (
            WatchState::Watching,
            WatchAction::NextEvent,
        ),
        (WatchState::Watching, WatchEvent::WatcherError) => (
            WatchState::Watching,
            WatchAction::NextEvent,
        ),
        (WatchState::Reloading, WatchEvent::Reloaded) => (
            WatchState::Watching,
            WatchAction::NextEvent,
        ),
        _ => (WatchState::Idle, WatchAction::CreateWatcher),
    }
}

/// The state after a run of events, one after another.
pub open spec fn run(state: WatchState, events: Seq<WatchEvent>) -> WatchState
    decreases events.len(),
{
    if events.len() == 0 {
        state
    } else {
        next_state(run(state, events.drop_last()), events.last())
    }
}

/// The loop never dies: it stops only where it is cancelled. Whatever else
/// it is told, in whatever state, it goes on.
pub proof fn lemma_stops_only_when_cancelled(state: WatchState, event: WatchEvent)
    ensures
        next_state(state, event) == WatchState::Stopped <==> state == WatchState::Stopped || event
            == WatchEvent::Cancelled,
        pending(next_state(state, event)) == WatchAction::Stop <==> state == WatchState::Stopped
            || event == WatchEvent::Cancelled,
{
}

/// A run without a cancellation never stops a loop that was not stopped.
pub proof fn lemma_run_goes_on(state: WatchState, events: Seq<WatchEvent>)
    requires
        state != WatchState::Stopped,
        forall|i: int| 0 <= i < events.len() ==> events[i] != WatchEvent::Cancelled,
    ensures
        run(state, events) != WatchState::Stopped,
    decreases events.len(),
{
    if events.len() > 0 {
        lemma_run_goes_on(state, events.drop_last());
    }
}

/// Whatever happened before, a loop that is not stopped recovers: once a
/// watcher is gone or failed, a created watcher and a watched path bring the
/// loop back to watching, and the next change is loaded.
pub proof fn lemma_recovers(state: WatchState, lost: WatchEvent)
    requires
        state != WatchState::Stopped,
        lost == WatchEvent::Changed(ChangeKind::Remove) || lost == WatchEvent::Changed(
            ChangeKind::Rename,
        ) || lost == WatchEvent::ChannelClosed || lost == WatchEvent::PathRefused || lost
            == WatchEvent::WatcherFailed,
    ensures
        next_state(state, lost) == WatchState::Idle,
        run(
            state,
            seq![
                lost,
                WatchEvent::WatcherCreated,
                WatchEvent::PathWatched,
                WatchEvent::Changed(ChangeKind::Modify),
            ],
        ) == WatchState::Reloading,
{
    let e1 = seq![lost];
    let e2 = seq![lost, WatchEvent::WatcherCreated];
    let e3 = seq![lost, WatchEvent::WatcherCreated, WatchEvent::PathWatched];
    let e4 = seq![
        lost,
        WatchEvent::WatcherCreated,
        WatchEvent::PathWatched,
        WatchEvent::Changed(ChangeKind::Modify),
    ];
    assert(e1.drop_last() =~= Seq::<WatchEvent>::empty());
    assert(e2.drop_last() =~= e1);
    assert(e3.drop_last() =~= e2);
    assert(e4.drop_last() =~= e3);
    assert(run(state, Seq::<WatchEvent>::empty()) == state);
    assert(run(state, e1) == WatchState::Idle);
    assert(run(state, e2) == WatchState::Created);
    assert(run(state, e3) == WatchState::Watching);
}

} // verus!
