//! Supervisor errors and their messages.

use vstd::prelude::*;
use vstd::pervasive::unreached;
use vstd::string::StringExecFns;

verus! {

/// Errors returned by supervisor operations.
#[derive(Debug)]
pub enum SupervisorError {
    /// Supervisor has no children.
    NoChildren(String),
    /// All children have failed.
    AllChildrenFailed(String),
    /// Supervisor is shutting down.
    ShuttingDown(String),
    /// Child with this ID already exists.
    ChildAlreadyExists(String),
    /// Child with this ID not found.
    ChildNotFound(String),
    /// Child initialization failed.
    InitializationFailed {
        /// ID of the child that failed to initialize.
        child_id: String,
        /// Reason for initialization failure.
        reason: String,
    },
    /// Child initialization timed out.
    InitializationTimeout {
        /// ID of the child that timed out.
        child_id: String,
        /// Duration after which timeout occurred.
        timeout: std::time::Duration,
    },
}

/// The text that the `Debug` formatting of `std::time::Duration` writes for
/// a duration (such as `5s` or `1.5ms`).
pub uninterp spec fn duration_text(d: std::time::Duration) -> Seq<char>;

/// Calls the `Debug` formatting of `std::time::Duration` (as `{:?}` does).
/// The text is a function of the duration alone; what it looks like is not
/// spelled out here.
#[verifier::external_body]
fn duration_debug_text(d: &std::time::Duration) -> (r: String)
    ensures
        r@ == duration_text(*d),
{
    format!("{:?}", d)
}

/// `prefix`, then `middle`, then `suffix`.
pub fn concat3(prefix: &str, middle: &str, suffix: &str) -> (r: String)
    ensures
        r@ == prefix@ + middle@ + suffix@,
{
    let mut r = prefix.to_owned();
    r.append(middle);
    r.append(suffix);
    r
}

impl SupervisorError {
    /// `m` is the human-readable message of this error.
    pub open spec fn is_message_of(&self, m: Seq<char>) -> bool {
        match self {
            SupervisorError::NoChildren(name) => m == "supervisor '"@ + name@
                + "' has no children"@,
            SupervisorError::AllChildrenFailed(name) => m == "all children failed for supervisor '"@
                + name@ + "' - restart intensity limit exceeded"@,
            SupervisorError::ShuttingDown(name) => m == "supervisor '"@ + name@
                + "' is shutting down - operation not permitted"@,
            SupervisorError::ChildAlreadyExists(id) => m == "child with id '"@ + id@
                + "' already exists - use a unique identifier"@,
            SupervisorError::ChildNotFound(id) => m == "child with id '"@ + id@
                + "' not found - it may have already terminated"@,
            SupervisorError::InitializationFailed { child_id, reason } => m == "child '"@
                + child_id@ + "' initialization failed: "@ + reason@,
            SupervisorError::InitializationTimeout { child_id, timeout } => m == "child '"@
                + child_id@ + "' initialization timed out after "@ + duration_text(*timeout),
        }
    }

    /// The human-readable message of this error.
    pub fn to_string(&self) -> (r: String)
        ensures
            self.is_message_of(r@),
    {
        match self {
            SupervisorError::NoChildren(name) => concat3(
                "supervisor '",
                name.as_str(),
                "' has no children",
            ),
            SupervisorError::AllChildrenFailed(name) => concat3(
                "all children failed for supervisor '",
                name.as_str(),
                "' - restart intensity limit exceeded",
            ),
            SupervisorError::ShuttingDown(name) => concat3(
                "supervisor '",
                name.as_str(),
                "' is shutting down - operation not permitted",
            ),
            SupervisorError::ChildAlreadyExists(id) => concat3(
                "child with id '",
                id.as_str(),
                "' already exists - use a unique identifier",
            ),
            SupervisorError::ChildNotFound(id) => concat3(
                "child with id '",
                id.as_str(),
                "' not found - it may have already terminated",
            ),
            SupervisorError::InitializationFailed { child_id, reason } => {
                let mut r = concat3("child '", child_id.as_str(), "' initialization failed: ");
                r.append(reason.as_str());
                r
            },
            SupervisorError::InitializationTimeout { child_id, timeout } => {
                let mut r = concat3("child '", child_id.as_str(), "' initialization timed out after ");
                let t = duration_debug_text(timeout);
                r.append(t.as_str());
                r
            },
        }
    }
}

/// Errors returned by stateful supervisor operations.
#[derive(Debug)]
pub enum StatefulSupervisorError {
    /// Supervisor has no children.
    NoChildren(String),
    /// All children have failed.
    AllChildrenFailed(String),
    /// Supervisor is shutting down.
    ShuttingDown(String),
    /// Child with this ID already exists.
    ChildAlreadyExists(String),
    /// Child with this ID not found.
    ChildNotFound(String),
}

impl StatefulSupervisorError {
    /// The human-readable message of this error.
    pub fn to_string(&self) -> (r: String)
        ensures
            match self {
                StatefulSupervisorError::NoChildren(name) => r@ == "stateful supervisor '"@ + name@
                    + "' has no children"@,
                StatefulSupervisorError::AllChildrenFailed(name) => r@
                    == "all children failed for stateful supervisor '"@ + name@
                    + "' - restart intensity limit exceeded"@,
                StatefulSupervisorError::ShuttingDown(name) => r@ == "stateful supervisor '"@
                    + name@ + "' is shutting down - operation not permitted"@,
                StatefulSupervisorError::ChildAlreadyExists(id) => r@ == "child with id '"@ + id@
                    + "' already exists - use a unique identifier"@,
                StatefulSupervisorError::ChildNotFound(id) => r@ == "child with id '"@ + id@
                    + "' not found - it may have already terminated"@,
            },
    {
        match self {
            StatefulSupervisorError::NoChildren(name) => concat3(
                "stateful supervisor '",
                name.as_str(),
                "' has no children",
            ),
            StatefulSupervisorError::AllChildrenFailed(name) => concat3(
                "all children failed for stateful supervisor '",
                name.as_str(),
                "' - restart intensity limit exceeded",
            ),
            StatefulSupervisorError::ShuttingDown(name) => concat3(
                "stateful supervisor '",
                name.as_str(),
                "' is shutting down - operation not permitted",
            ),
            StatefulSupervisorError::ChildAlreadyExists(id) => concat3(
                "child with id '",
                id.as_str(),
                "' already exists - use a unique identifier",
            ),
            StatefulSupervisorError::ChildNotFound(id) => concat3(
                "child with id '",
                id.as_str(),
                "' not found - it may have already terminated",
            ),
        }
    }

    /// The stateful counterpart of a supervisor error that a stateful
    /// supervisor can report (every variant but the two initialization ones).
    pub fn from_supervisor_error(e: SupervisorError) -> (r: Self)
        requires
            !(e is InitializationFailed),
            !(e is InitializationTimeout),
        ensures
            match e {
                SupervisorError::NoChildren(s) => r matches StatefulSupervisorError::NoChildren(t)
                    && t@ == s@,
                SupervisorError::AllChildrenFailed(s) => r matches StatefulSupervisorError::AllChildrenFailed(t)
                    && t@ == s@,
                SupervisorError::ShuttingDown(s) => r matches StatefulSupervisorError::ShuttingDown(t)
                    && t@ == s@,
                SupervisorError::ChildAlreadyExists(s) => r matches StatefulSupervisorError::ChildAlreadyExists(t)
                    && t@ == s@,
                SupervisorError::ChildNotFound(s) => r matches StatefulSupervisorError::ChildNotFound(t)
                    && t@ == s@,
                _ => false,
            },
    {
        match e {
            SupervisorError::NoChildren(s) => StatefulSupervisorError::NoChildren(s),
            SupervisorError::AllChildrenFailed(s) => StatefulSupervisorError::AllChildrenFailed(s),
            SupervisorError::ShuttingDown(s) => StatefulSupervisorError::ShuttingDown(s),
            SupervisorError::ChildAlreadyExists(s) => StatefulSupervisorError::ChildAlreadyExists(s),
            SupervisorError::ChildNotFound(s) => StatefulSupervisorError::ChildNotFound(s),
            _ => unreached(),
        }
    }
}

} // verus!
