use ash_flare::worker::WorkerError;
use ash_flare::{StatefulSupervisorError, SupervisorError};

#[test]
fn test_supervisor_error_no_children() {
    let err = SupervisorError::NoChildren("test-supervisor".to_string());
    let msg = err.to_string();
    assert!(msg.contains("test-supervisor"));
    assert!(msg.contains("has no children"));
}

#[test]
fn test_supervisor_error_all_children_failed() {
    let err = SupervisorError::AllChildrenFailed("main-supervisor".to_string());
    let msg = err.to_string();
    assert!(msg.contains("main-supervisor"));
    assert!(msg.contains("all children failed"));
    assert!(msg.contains("restart intensity limit exceeded"));
}

#[test]
fn test_supervisor_error_shutting_down() {
    let err = SupervisorError::ShuttingDown("service-supervisor".to_string());
    let msg = err.to_string();
    assert!(msg.contains("service-supervisor"));
    assert!(msg.contains("shutting down"));
    assert!(msg.contains("operation not permitted"));
}

#[test]
fn test_supervisor_error_child_already_exists() {
    let err = SupervisorError::ChildAlreadyExists("worker-1".to_string());
    let msg = err.to_string();
    assert!(msg.contains("worker-1"));
    assert!(msg.contains("already exists"));
    assert!(msg.contains("unique identifier"));
}

#[test]
fn test_supervisor_error_child_not_found() {
    let err = SupervisorError::ChildNotFound("worker-2".to_string());
    let msg = err.to_string();
    assert!(msg.contains("worker-2"));
    assert!(msg.contains("not found"));
    assert!(msg.contains("may have already terminated"));
}

#[test]
fn test_supervisor_error_debug() {
    let err = SupervisorError::NoChildren("test".to_string());
    let debug_str = format!("{:?}", err);
    assert!(debug_str.contains("NoChildren"));
    assert!(debug_str.contains("test"));
}

#[test]
fn test_all_error_variants() {
    let errors = vec![
        SupervisorError::NoChildren("sup1".to_string()),
        SupervisorError::AllChildrenFailed("sup2".to_string()),
        SupervisorError::ShuttingDown("sup3".to_string()),
        SupervisorError::ChildAlreadyExists("child1".to_string()),
        SupervisorError::ChildNotFound("child2".to_string()),
    ];

    for err in errors {
        let msg = err.to_string();
        let debug = format!("{:?}", err);
        assert!(!msg.is_empty());
        assert!(!debug.is_empty());
    }
}

#[test]
fn test_error_display_formatting() {
    let err = SupervisorError::NoChildren("my-supervisor".to_string());
    let display = err.to_string();
    let formatted = err.to_string();
    assert_eq!(display, formatted);
}

#[test]
fn test_error_with_empty_name() {
    let err = SupervisorError::NoChildren("".to_string());
    let msg = err.to_string();
    assert!(msg.contains("''"));
}

#[test]
fn test_error_with_special_characters() {
    let err = SupervisorError::ChildNotFound("worker-123-!@#$".to_string());
    let msg = err.to_string();
    assert!(msg.contains("worker-123-!@#$"));
}

#[test]
fn supervisor_error_messages_are_exact() {
    assert_eq!(
        SupervisorError::NoChildren("a".to_string()).to_string(),
        "supervisor 'a' has no children"
    );
    assert_eq!(
        SupervisorError::InitializationFailed {
            child_id: "w".to_string(),
            reason: "boom".to_string()
        }
        .to_string(),
        "child 'w' initialization failed: boom"
    );
    assert_eq!(
        SupervisorError::InitializationTimeout {
            child_id: "w".to_string(),
            timeout: std::time::Duration::from_millis(100)
        }
        .to_string(),
        "child 'w' initialization timed out after 100ms"
    );
}

#[test]
fn stateful_error_messages_are_exact() {
    assert_eq!(
        StatefulSupervisorError::NoChildren("s".to_string()).to_string(),
        "stateful supervisor 's' has no children"
    );
    assert_eq!(
        StatefulSupervisorError::ShuttingDown("s".to_string()).to_string(),
        "stateful supervisor 's' is shutting down - operation not permitted"
    );
    assert_eq!(
        StatefulSupervisorError::ChildNotFound("c".to_string()).to_string(),
        "child with id 'c' not found - it may have already terminated"
    );
}

#[test]
fn stateful_error_from_supervisor_error_keeps_the_name() {
    let e = StatefulSupervisorError::from_supervisor_error(SupervisorError::ChildAlreadyExists(
        "dup".to_string(),
    ));
    assert!(matches!(e, StatefulSupervisorError::ChildAlreadyExists(ref s) if s == "dup"));
}

#[test]
fn worker_error_messages_are_exact() {
    assert_eq!(
        WorkerError::CommandChannelClosed("sup".to_string()).to_string(),
        "command channel to sup is closed"
    );
    assert_eq!(WorkerError::WorkerPanicked("w".to_string()).to_string(), "worker w panicked");
    assert_eq!(WorkerError::WorkerFailed("x".to_string()).to_string(), "worker failed: x");
}
