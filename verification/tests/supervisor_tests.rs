use ash_flare::{
    ChildExitReason, ChildSpec, ChildType, LinkedInit, RestartIntensity, RestartPolicy,
    RestartStep, RestartStrategy, SupervisorError, SupervisorSpec, SupervisorState,
    TerminationAction,
};

#[derive(Debug)]
struct QuickWorker;

type Factory = fn() -> QuickWorker;

fn quick() -> QuickWorker {
    QuickWorker
}

fn ids(state: &SupervisorState) -> Vec<String> {
    state.which_children().into_iter().map(|c| c.id).collect()
}

#[test]
fn test_supervisor_spec_builder() {
    let spec = SupervisorSpec::<Factory>::new("builder-test")
        .with_restart_strategy(RestartStrategy::OneForAll)
        .with_restart_intensity(RestartIntensity::new(10, 30))
        .with_worker("w1", quick, RestartPolicy::Permanent)
        .with_worker("w2", quick, RestartPolicy::Transient);
    assert_eq!(spec.name(), "builder-test");
    assert_eq!(spec.restart_strategy(), RestartStrategy::OneForAll);
    assert_eq!(spec.restart_intensity().max_restarts, 10);
    assert_eq!(spec.restart_intensity().within_seconds, 30);
    assert_eq!(spec.children().len(), 2);
    match &spec.children()[1] {
        ChildSpec::Worker(w) => {
            assert_eq!(w.id, "w2");
            assert_eq!(w.restart_policy, RestartPolicy::Transient);
            let _made: QuickWorker = (w.worker_factory)();
        }
        ChildSpec::Supervisor(_) => panic!("expected a worker"),
    }
}

#[test]
fn spec_defaults_and_nesting() {
    let inner = SupervisorSpec::<Factory>::new("inner").with_worker("x", quick, RestartPolicy::Temporary);
    let outer = SupervisorSpec::<Factory>::new("outer")
        .with_worker("a", quick, RestartPolicy::Permanent)
        .with_supervisor(inner);
    assert_eq!(outer.restart_strategy(), RestartStrategy::OneForOne);
    assert_eq!(outer.restart_intensity().max_restarts, 3);
    assert_eq!(outer.restart_intensity().within_seconds, 5);
    let state = SupervisorState::from_spec(&outer);
    let infos = state.which_children();
    assert_eq!(infos.len(), 2);
    assert_eq!(infos[0].id, "a");
    assert_eq!(infos[0].child_type, ChildType::Worker);
    assert_eq!(infos[0].restart_policy, Some(RestartPolicy::Permanent));
    assert_eq!(infos[1].id, "inner");
    assert_eq!(infos[1].child_type, ChildType::Supervisor);
    assert_eq!(infos[1].restart_policy, None);
    assert_eq!(state.name(), "outer");
}

fn empty(name: &str) -> SupervisorState {
    SupervisorState::from_spec(&SupervisorSpec::<Factory>::new(name))
}

#[test]
fn test_supervisor_duplicate_child() {
    let mut state = empty("duplicate-test");
    let first = state.start_child("duplicate", RestartPolicy::Permanent);
    assert!(first.is_ok());
    let second = state.start_child("duplicate", RestartPolicy::Temporary);
    assert!(matches!(second, Err(SupervisorError::ChildAlreadyExists(ref id)) if id == "duplicate"));
    assert_eq!(state.child_count(), 1);
}

#[test]
fn test_supervisor_terminate_nonexistent() {
    let mut state = empty("terminate-test");
    let result = state.terminate_child("nonexistent");
    assert!(matches!(result, Err(SupervisorError::ChildNotFound(ref id)) if id == "nonexistent"));
}

#[test]
fn start_then_terminate_restores_children() {
    let spec = SupervisorSpec::<Factory>::new("s").with_worker("a", quick, RestartPolicy::Permanent);
    let mut state = SupervisorState::from_spec(&spec);
    assert_eq!(state.start_child("dynamic-worker", RestartPolicy::Permanent).unwrap(), "dynamic-worker");
    assert_eq!(ids(&state), vec!["a", "dynamic-worker"]);
    assert_eq!(state.terminate_child("dynamic-worker").unwrap(), 1);
    assert_eq!(ids(&state), vec!["a"]);
}

#[test]
fn test_permanent_worker_restart() {
    let spec = SupervisorSpec::<Factory>::new("permanent-test")
        .with_restart_intensity(RestartIntensity::new(10, 5))
        .with_worker("failing", quick, RestartPolicy::Permanent);
    let mut state = SupervisorState::from_spec(&spec);
    match state.child_terminated_at("failing", ChildExitReason::Abnormal, 0) {
        TerminationAction::Restart(steps) => {
            assert_eq!(steps, vec![RestartStep::Shutdown(0), RestartStep::Spawn(0)])
        }
        other => panic!("unexpected {:?}", other),
    }
    assert_eq!(ids(&state), vec!["failing"]);
}

#[test]
fn test_transient_worker_no_restart_on_normal_exit() {
    let spec = SupervisorSpec::<Factory>::new("transient-test").with_worker("quick", quick, RestartPolicy::Transient);
    let mut state = SupervisorState::from_spec(&spec);
    assert!(matches!(
        state.child_terminated_at("quick", ChildExitReason::Normal, 0),
        TerminationAction::Remove(0)
    ));
    assert_eq!(state.child_count(), 0);
}

#[test]
fn transient_worker_restarts_on_abnormal_exit() {
    let spec = SupervisorSpec::<Factory>::new("t").with_worker("quick", quick, RestartPolicy::Transient);
    let mut state = SupervisorState::from_spec(&spec);
    assert!(matches!(
        state.child_terminated_at("quick", ChildExitReason::Abnormal, 0),
        TerminationAction::Restart(_)
    ));
    assert_eq!(state.child_count(), 1);
}

#[test]
fn test_temporary_worker_no_restart() {
    let spec = SupervisorSpec::<Factory>::new("temporary-test").with_worker("failing", quick, RestartPolicy::Temporary);
    let mut state = SupervisorState::from_spec(&spec);
    assert!(matches!(
        state.child_terminated_at("failing", ChildExitReason::Abnormal, 0),
        TerminationAction::Remove(0)
    ));
    assert_eq!(state.child_count(), 0);
}

#[test]
fn unknown_child_exit_is_ignored() {
    let mut state = empty("s");
    assert!(matches!(
        state.child_terminated_at("ghost", ChildExitReason::Abnormal, 0),
        TerminationAction::Ignore
    ));
}

#[test]
fn test_supervisor_restart_intensity() {
    let spec = SupervisorSpec::<Factory>::new("test")
        .with_restart_intensity(RestartIntensity { max_restarts: 2, within_seconds: 5 })
        .with_worker("a", quick, RestartPolicy::Permanent)
        .with_worker("b", quick, RestartPolicy::Permanent);
    let mut state = SupervisorState::from_spec(&spec);
    assert!(matches!(state.child_terminated_at("a", ChildExitReason::Abnormal, 1), TerminationAction::Restart(_)));
    assert!(matches!(state.child_terminated_at("a", ChildExitReason::Abnormal, 2), TerminationAction::Restart(_)));
    assert!(matches!(state.child_terminated_at("b", ChildExitReason::Abnormal, 3), TerminationAction::ShutdownAll));
    assert_eq!(state.child_count(), 0);
}

fn three_workers(strategy: RestartStrategy) -> SupervisorState {
    let spec = SupervisorSpec::<Factory>::new("strategies")
        .with_restart_strategy(strategy)
        .with_worker("w1", quick, RestartPolicy::Permanent)
        .with_worker("w2", quick, RestartPolicy::Permanent)
        .with_worker("w3", quick, RestartPolicy::Permanent);
    SupervisorState::from_spec(&spec)
}

#[test]
fn test_supervisor_restart_strategies() {
    let (shutdown, spawn) = (RestartStep::Shutdown, RestartStep::Spawn);
    let mut one = three_workers(RestartStrategy::OneForOne);
    assert_eq!(one.restart_strategy(), RestartStrategy::OneForOne);
    match one.child_terminated_at("w2", ChildExitReason::Abnormal, 0) {
        TerminationAction::Restart(s) => assert_eq!(s, vec![shutdown(1), spawn(1)]),
        other => panic!("unexpected {:?}", other),
    }
    let mut all = three_workers(RestartStrategy::OneForAll);
    match all.child_terminated_at("w2", ChildExitReason::Abnormal, 0) {
        TerminationAction::Restart(s) => assert_eq!(
            s,
            vec![shutdown(0), shutdown(1), shutdown(2), spawn(0), spawn(1), spawn(2)]
        ),
        other => panic!("unexpected {:?}", other),
    }
    let mut rest = three_workers(RestartStrategy::RestForOne);
    match rest.child_terminated_at("w2", ChildExitReason::Abnormal, 0) {
        TerminationAction::Restart(s) => {
            assert_eq!(s, vec![shutdown(1), spawn(1), shutdown(2), spawn(2)])
        }
        other => panic!("unexpected {:?}", other),
    }
    assert_eq!(ids(&rest), vec!["w1", "w2", "w3"]);
}

#[test]
fn nested_supervisor_is_restarted() {
    let inner = SupervisorSpec::<Factory>::new("child-supervisor");
    let spec = SupervisorSpec::<Factory>::new("parent-supervisor").with_supervisor(inner);
    let mut state = SupervisorState::from_spec(&spec);
    assert!(matches!(
        state.child_terminated_at("child-supervisor", ChildExitReason::Normal, 0),
        TerminationAction::Restart(_)
    ));
}

#[test]
fn linked_start_outcomes() {
    let mut state = empty("linked");
    let timeout = std::time::Duration::from_millis(50);
    assert!(state.admit_child("w").is_ok());
    match state.finish_linked_start("w", RestartPolicy::Permanent, LinkedInit::Failed("bad".to_string()), timeout) {
        Err(SupervisorError::InitializationFailed { child_id, reason }) => {
            assert_eq!(child_id, "w");
            assert_eq!(reason, "bad");
        }
        other => panic!("unexpected {:?}", other),
    }
    match state.finish_linked_start("w", RestartPolicy::Permanent, LinkedInit::Panicked, timeout) {
        Err(SupervisorError::InitializationFailed { reason, .. }) => {
            assert_eq!(reason, "worker panicked during initialization")
        }
        other => panic!("unexpected {:?}", other),
    }
    match state.finish_linked_start("w", RestartPolicy::Permanent, LinkedInit::TimedOut, timeout) {
        Err(SupervisorError::InitializationTimeout { child_id, timeout: t }) => {
            assert_eq!(child_id, "w");
            assert_eq!(t, timeout);
        }
        other => panic!("unexpected {:?}", other),
    }
    assert_eq!(state.child_count(), 0);
    assert_eq!(
        state.finish_linked_start("w", RestartPolicy::Transient, LinkedInit::Ready, timeout).unwrap(),
        "w"
    );
    assert_eq!(ids(&state), vec!["w"]);
    assert!(matches!(state.admit_child("w"), Err(SupervisorError::ChildAlreadyExists(_))));
}

#[test]
fn shutdown_drops_every_child_in_order() {
    let mut state = three_workers(RestartStrategy::OneForOne);
    let dropped: Vec<String> = state.shutdown_children().into_iter().map(|c| c.id).collect();
    assert_eq!(dropped, vec!["w1", "w2", "w3"]);
    assert_eq!(state.child_count(), 0);
}

#[test]
fn clock_driven_exit_is_handled() {
    let mut state = three_workers(RestartStrategy::OneForOne);
    assert!(matches!(
        state.child_terminated("w1", ChildExitReason::Abnormal),
        TerminationAction::Restart(_)
    ));
    let _ = state.uptime_secs();
}

#[test]
fn failed_linked_start_is_never_restarted() {
    let mut state = empty("linked-failure");
    assert!(state.admit_child("w").is_ok());
    let timeout = std::time::Duration::from_millis(10);
    assert!(state
        .finish_linked_start("w", RestartPolicy::Permanent, LinkedInit::Failed("init".to_string()), timeout)
        .is_err());
    // The worker reports its abnormal exit after the failed initialization.
    assert!(matches!(
        state.child_terminated_at("w", ChildExitReason::Abnormal, 0),
        TerminationAction::Ignore
    ));
    assert_eq!(state.child_count(), 0);
}
