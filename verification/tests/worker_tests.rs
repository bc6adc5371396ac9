use ash_flare::{ChildExitReason, LifecycleAction, LifecycleEvent, LifecyclePhase, WorkerLifecycle};

#[test]
fn worker_lifecycle_normal_run() {
    let mut l = WorkerLifecycle::new(false);
    assert_eq!(l.on_event(LifecycleEvent::Initialized), vec![LifecycleAction::Run]);
    assert_eq!(l.on_event(LifecycleEvent::RunFinished(true)), vec![LifecycleAction::Shutdown]);
    assert_eq!(
        l.on_event(LifecycleEvent::ShutdownFinished),
        vec![LifecycleAction::NotifyExit(ChildExitReason::Normal)]
    );
    assert_eq!(l.phase(), LifecyclePhase::Stopped);
}

#[test]
fn worker_lifecycle_failed_run_is_abnormal() {
    let mut l = WorkerLifecycle::new(true);
    assert_eq!(
        l.on_event(LifecycleEvent::Initialized),
        vec![LifecycleAction::ReportInitialized, LifecycleAction::Run]
    );
    l.on_event(LifecycleEvent::RunFinished(false));
    assert_eq!(
        l.on_event(LifecycleEvent::ShutdownFinished),
        vec![LifecycleAction::NotifyExit(ChildExitReason::Abnormal)]
    );
}

#[test]
fn worker_lifecycle_failed_init_skips_run() {
    let mut l = WorkerLifecycle::new(true);
    assert_eq!(
        l.on_event(LifecycleEvent::InitializationFailed),
        vec![
            LifecycleAction::ReportInitFailure,
            LifecycleAction::NotifyExit(ChildExitReason::Abnormal)
        ]
    );
    assert_eq!(l.phase(), LifecyclePhase::Stopped);
    assert!(l.on_event(LifecycleEvent::RunFinished(true)).is_empty());
}

#[test]
fn stopped_worker_is_shut_down_without_report() {
    let mut l = WorkerLifecycle::new(false);
    assert_eq!(l.on_event(LifecycleEvent::Initialized), vec![LifecycleAction::Run]);
    assert_eq!(l.on_event(LifecycleEvent::StopRequested), vec![LifecycleAction::Shutdown]);
    assert_eq!(l.phase(), LifecyclePhase::Stopping);
    assert_eq!(l.on_event(LifecycleEvent::ShutdownFinished), vec![]);
    assert_eq!(l.phase(), LifecyclePhase::Stopped);
}

#[test]
fn stop_during_shutdown_silences_the_report() {
    let mut l = WorkerLifecycle::new(false);
    l.on_event(LifecycleEvent::Initialized);
    assert_eq!(l.on_event(LifecycleEvent::RunFinished(true)), vec![LifecycleAction::Shutdown]);
    assert_eq!(l.on_event(LifecycleEvent::StopRequested), vec![]);
    assert_eq!(l.on_event(LifecycleEvent::ShutdownFinished), vec![]);
    assert_eq!(l.phase(), LifecyclePhase::Stopped);
    assert!(l.on_event(LifecycleEvent::StopRequested).is_empty());
}

#[test]
fn stop_during_initialization_is_never_reported() {
    let mut l = WorkerLifecycle::new(false);
    assert_eq!(l.on_event(LifecycleEvent::StopRequested), vec![]);
    assert_eq!(l.phase(), LifecyclePhase::StopPending);
    assert_eq!(l.on_event(LifecycleEvent::InitializationFailed), vec![]);
    assert_eq!(l.phase(), LifecyclePhase::Stopped);

    let mut linked = WorkerLifecycle::new(true);
    linked.on_event(LifecycleEvent::StopRequested);
    assert_eq!(
        linked.on_event(LifecycleEvent::InitializationFailed),
        vec![LifecycleAction::ReportInitFailure]
    );
}

#[test]
fn stop_during_initialization_shuts_down_an_initialized_worker() {
    let mut l = WorkerLifecycle::new(true);
    l.on_event(LifecycleEvent::StopRequested);
    assert_eq!(
        l.on_event(LifecycleEvent::Initialized),
        vec![LifecycleAction::ReportInitialized, LifecycleAction::Shutdown]
    );
    assert_eq!(l.phase(), LifecyclePhase::Stopping);
    assert_eq!(l.on_event(LifecycleEvent::ShutdownFinished), vec![]);
    assert_eq!(l.phase(), LifecyclePhase::Stopped);
}
