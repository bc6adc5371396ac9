//! Common types used throughout the supervision tree.

use vstd::prelude::*;

use crate::restart::RestartPolicy;

verus! {

/// Result of a worker's execution.
#[derive(Debug, Clone, Copy, PartialEq, Eq, Structural)]
pub enum ChildExitReason {
    /// Normal termination.
    Normal,
    /// Abnormal termination (error or panic).
    Abnormal,
    /// Shutdown requested.
    Shutdown,
}

/// Child identifier type.
pub type ChildId = String;

/// Type of child in a supervision tree.
#[derive(Debug, Clone, Copy, PartialEq, Eq, Structural)]
pub enum ChildType {
    /// A worker process.
    Worker,
    /// A nested supervisor.
    Supervisor,
}

/// What a contract sees of a child: its identifier, its type and its
/// restart policy.
pub struct ChildView {
    /// The child's identifier.
    pub id: Seq<char>,
    /// Worker or nested supervisor.
    pub child_type: ChildType,
    /// The restart policy (`None` for supervisors).
    pub restart_policy: Option<RestartPolicy>,
}

/// Information about a child process.
#[derive(Debug, Clone)]
pub struct ChildInfo {
    /// Unique identifier for the child.
    pub id: ChildId,
    /// Type of child (Worker or Supervisor).
    pub child_type: ChildType,
    /// Restart policy for the child (`None` for supervisors).
    pub restart_policy: Option<RestartPolicy>,
}

impl View for ChildInfo {
    type V = ChildView;

    open spec fn view(&self) -> ChildView {
        ChildView { id: self.id@, child_type: self.child_type, restart_policy: self.restart_policy }
    }
}

/// The views of a sequence of child records.
pub open spec fn child_views(s: Seq<ChildInfo>) -> Seq<ChildView> {
    s.map_values(|c: ChildInfo| c@)
}

/// The record of a worker child.
pub open spec fn worker_view(id: Seq<char>, policy: RestartPolicy) -> ChildView {
    ChildView { id, child_type: ChildType::Worker, restart_policy: Some(policy) }
}

/// The record of a nested supervisor child.
pub open spec fn supervisor_view(name: Seq<char>) -> ChildView {
    ChildView { id: name, child_type: ChildType::Supervisor, restart_policy: None }
}

impl ChildInfo {
    /// The record of a worker child with the given identifier and policy.
    pub fn worker(id: &str, restart_policy: RestartPolicy) -> (c: ChildInfo)
        ensures
            c@ == worker_view(id@, restart_policy),
    {
        ChildInfo {
            id: id.to_owned(),
            child_type: ChildType::Worker,
            restart_policy: Some(restart_policy),
        }
    }

    /// A copy of this record.
    pub fn duplicate(&self) -> (c: ChildInfo)
        ensures
            c@ == self@,
    {
        ChildInfo {
            id: self.id.clone(),
            child_type: self.child_type,
            restart_policy: self.restart_policy,
        }
    }
}

} // verus!
