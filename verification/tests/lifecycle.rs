use homelab_aws_creds::lifecycle::{
    exit, ready, serve, ExitReport, LifecycleAction, LifecycleEvent, Listener, Phase, Readiness,
    TaskOutcome,
};

#[test]
fn graceful_shutdown_runs_in_order() {
    assert_eq!(ready(Phase::Running), Readiness::Ready);
    let (phase, action) = serve(Phase::Running, LifecycleEvent::Signal, 15);
    assert_eq!((phase, action), (Phase::Draining, LifecycleAction::Drain { grace_seconds: 15 }));
    assert_eq!(ready(phase), Readiness::NotReady);
    let (phase, action) = serve(phase, LifecycleEvent::GraceElapsed, 15);
    assert_eq!((phase, action), (Phase::Stopping, LifecycleAction::CancelAndJoin));
    assert_eq!(ready(phase), Readiness::NotReady);
    let (phase, action) = serve(phase, LifecycleEvent::Joined, 15);
    assert_eq!((phase, action), (Phase::Done, LifecycleAction::ExitClean));
    assert_eq!(ready(phase), Readiness::NotReady);
}

#[test]
fn early_listener_exit_is_fatal() {
    assert_eq!(
        serve(Phase::Running, LifecycleEvent::ListenerExited(Listener::Metrics), 0),
        (Phase::Done, LifecycleAction::ExitFailed(Listener::Metrics))
    );
    assert_eq!(
        serve(Phase::Running, LifecycleEvent::ListenerExited(Listener::App), 0),
        (Phase::Done, LifecycleAction::ExitFailed(Listener::App))
    );
}

#[test]
fn events_out_of_place_change_nothing() {
    assert_eq!(serve(Phase::Running, LifecycleEvent::GraceElapsed, 3), (Phase::Running, LifecycleAction::Wait));
    assert_eq!(serve(Phase::Running, LifecycleEvent::Joined, 3), (Phase::Running, LifecycleAction::Wait));
    assert_eq!(serve(Phase::Draining, LifecycleEvent::Signal, 3), (Phase::Draining, LifecycleAction::Wait));
    assert_eq!(
        serve(Phase::Draining, LifecycleEvent::ListenerExited(Listener::App), 3),
        (Phase::Draining, LifecycleAction::Wait)
    );
    assert_eq!(serve(Phase::Stopping, LifecycleEvent::GraceElapsed, 3), (Phase::Stopping, LifecycleAction::Wait));
    assert_eq!(serve(Phase::Done, LifecycleEvent::Signal, 3), (Phase::Done, LifecycleAction::Wait));
}

#[test]
fn readiness_answers() {
    assert_eq!(Readiness::of(false), Readiness::Ready);
    assert_eq!(Readiness::of(true), Readiness::NotReady);
    assert_eq!(Readiness::Ready.status_code(), 200);
    assert_eq!(Readiness::Ready.body(), "Ok");
    assert_eq!(Readiness::NotReady.status_code(), 500);
    assert_eq!(Readiness::NotReady.body(), "NotReady");
}

#[test]
fn exit_reports() {
    assert_eq!(
        exit("metrics", &TaskOutcome::Exited),
        ExitReport { failure: false, message: "metrics exited".to_string() }
    );
    assert_eq!(
        exit("app", &TaskOutcome::Failed("address in use".to_string())),
        ExitReport { failure: true, message: "app failed with error: address in use".to_string() }
    );
    assert_eq!(
        exit("app", &TaskOutcome::Aborted("task 7 panicked".to_string())),
        ExitReport { failure: true, message: "app task failed to complete: task 7 panicked".to_string() }
    );
}

#[test]
fn listener_names() {
    assert_eq!(Listener::Metrics.name(), "metrics");
    assert_eq!(Listener::App.name(), "app");
}
