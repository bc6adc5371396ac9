//! Fault-tolerant supervision trees, in the manner of Erlang/OTP.
//!
//! A supervisor watches a list of children (workers and nested
//! supervisors). When a child exits, its restart policy (`Permanent`,
//! `Temporary`, `Transient`) says whether it is restarted, the restart
//! strategy (`OneForOne`, `OneForAll`, `RestForOne`) says which children are
//! restarted with it, and the restart intensity (at most `max_restarts`
//! restarts within `within_seconds`) says when the supervisor gives up and
//! shuts every child down.
//!
//! This crate holds the supervisor's specification, its decisions, the
//! lifecycle of a worker, mailboxes, and the messages and framing of
//! distributed supervision. Running the processes (spawning tasks, waiting
//! on channels, talking over sockets) is left to the code that drives these
//! decisions.

pub mod clock;
pub mod context;
pub mod distributed;
pub mod mailbox;
pub mod restart;
pub mod supervisor;
pub mod types;
pub mod worker;

pub use restart::{RestartIntensity, RestartPolicy, RestartStrategy};
pub use supervisor::error::{StatefulSupervisorError, SupervisorError};
pub use supervisor::spec::{ChildSpec, SupervisorSpec, WorkerSpec};
pub use supervisor::state::{LinkedInit, RestartStep, SupervisorState, TerminationAction};
pub use types::{ChildExitReason, ChildId, ChildInfo, ChildType};
pub use worker::{LifecycleAction, LifecycleEvent, LifecyclePhase, WorkerError, WorkerLifecycle};
