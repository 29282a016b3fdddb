use homelab_aws_creds::watch::{start, step, ChangeKind, WatchAction, WatchEvent, WatchState};

fn drive(mut state: WatchState, events: &[WatchEvent]) -> (WatchState, WatchAction) {
    let mut action = WatchAction::NextEvent;
    for event in events {
        let (s, a) = step(state, *event);
        state = s;
        action = a;
    }
    (state, action)
}

#[test]
fn loop_starts_by_creating_a_watcher() {
    assert_eq!(start(), (WatchState::Idle, WatchAction::CreateWatcher));
}

#[test]
fn modify_event_triggers_a_reload() {
    let (state, _) = start();
    assert_eq!(
        drive(state, &[WatchEvent::WatcherCreated, WatchEvent::PathWatched, WatchEvent::Changed(ChangeKind::Modify)]),
        (WatchState::Reloading, WatchAction::Reload)
    );
    assert_eq!(step(WatchState::Reloading, WatchEvent::Reloaded), (WatchState::Watching, WatchAction::NextEvent));
}

#[test]
fn source_deleted_and_recreated_is_watched_again() {
    let (state, _) = start();
    let (state, action) = drive(
        state,
        &[
            WatchEvent::WatcherCreated,
            WatchEvent::PathWatched,
            WatchEvent::Changed(ChangeKind::Modify),
            WatchEvent::Reloaded,
            WatchEvent::Changed(ChangeKind::Remove),
        ],
    );
    assert_eq!((state, action), (WatchState::Idle, WatchAction::CreateWatcher));
    // The watcher is created anew on the same path, and later changes are loaded.
    let (state, action) = drive(state, &[WatchEvent::WatcherCreated]);
    assert_eq!((state, action), (WatchState::Created, WatchAction::WatchPath));
    let (state, action) = drive(state, &[WatchEvent::PathWatched]);
    assert_eq!((state, action), (WatchState::Watching, WatchAction::NextEvent));
    let (state, action) = drive(state, &[WatchEvent::Changed(ChangeKind::Modify)]);
    assert_eq!((state, action), (WatchState::Reloading, WatchAction::Reload));
    let (state, action) = drive(state, &[WatchEvent::Reloaded]);
    assert_eq!((state, action), (WatchState::Watching, WatchAction::NextEvent));
}

#[test]
fn failed_watcher_creation_is_retried() {
    let (state, _) = start();
    assert_eq!(
        drive(state, &[WatchEvent::WatcherFailed, WatchEvent::WatcherFailed, WatchEvent::WatcherFailed]),
        (WatchState::Idle, WatchAction::CreateWatcher)
    );
    assert_eq!(step(WatchState::Created, WatchEvent::PathRefused), (WatchState::Idle, WatchAction::CreateWatcher));
}

#[test]
fn other_notifications_and_watcher_errors_keep_watching() {
    assert_eq!(
        step(WatchState::Watching, WatchEvent::Changed(ChangeKind::Other)),
        (WatchState::Watching, WatchAction::NextEvent)
    );
    assert_eq!(step(WatchState::Watching, WatchEvent::WatcherError), (WatchState::Watching, WatchAction::NextEvent));
    assert_eq!(step(WatchState::Watching, WatchEvent::ChannelClosed), (WatchState::Idle, WatchAction::CreateWatcher));
}

#[test]
fn only_cancellation_stops_the_loop() {
    let states = [
        WatchState::Idle,
        WatchState::Created,
        WatchState::Watching,
        WatchState::Reloading,
        WatchState::Stopped,
    ];
    let events = [
        WatchEvent::WatcherCreated,
        WatchEvent::WatcherFailed,
        WatchEvent::PathWatched,
        WatchEvent::PathRefused,
        WatchEvent::Changed(ChangeKind::Modify),
        WatchEvent::Changed(ChangeKind::Remove),
        WatchEvent::Changed(ChangeKind::Rename),
        WatchEvent::Changed(ChangeKind::Other),
        WatchEvent::WatcherError,
        WatchEvent::ChannelClosed,
        WatchEvent::Reloaded,
        WatchEvent::Cancelled,
    ];
    for state in states {
        for event in events {
            let (next, action) = step(state, event);
            let stops = state == WatchState::Stopped || event == WatchEvent::Cancelled;
            assert_eq!(next == WatchState::Stopped, stops, "{:?} {:?}", state, event);
            assert_eq!(action == WatchAction::Stop, stops, "{:?} {:?}", state, event);
        }
    }
}

#[test]
fn event_out_of_place_starts_over() {
    assert_eq!(step(WatchState::Idle, WatchEvent::Reloaded), (WatchState::Idle, WatchAction::CreateWatcher));
    assert_eq!(step(WatchState::Reloading, WatchEvent::PathWatched), (WatchState::Idle, WatchAction::CreateWatcher));
}

#[test]
fn source_replaced_by_rename_is_watched_again() {
    let (state, action) = drive(
        WatchState::Idle,
        &[
            WatchEvent::WatcherCreated,
            WatchEvent::PathWatched,
            WatchEvent::Changed(ChangeKind::Rename),
        ],
    );
    assert_eq!((state, action), (WatchState::Idle, WatchAction::CreateWatcher));
    assert_eq!(
        drive(
            state,
            &[
                WatchEvent::WatcherCreated,
                WatchEvent::PathWatched,
                WatchEvent::Changed(ChangeKind::Modify)
            ]
        ),
        (WatchState::Reloading, WatchAction::Reload)
    );
}
