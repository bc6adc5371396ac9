//! The decision logic of a running supervisor.
//!
//! A supervisor keeps one record per child, in start order. Each command it
//! receives (start a child, terminate a child, a child exited, shut down) is
//! a transition of [`SupervisorState`]; the transition says what becomes of
//! the records and which processes have to be shut down or spawned.

use vstd::prelude::*;

use crate::clock::{instant_now, secs_since};
use crate::restart::{
    is_sorted, record_spec, RestartIntensity, RestartPolicy, RestartStrategy, RestartTracker,
};
use crate::supervisor::error::SupervisorError;
use crate::supervisor::spec::{child_spec_view, ChildSpec, SupervisorSpec};
use crate::types::{
    child_views, worker_view, ChildExitReason, ChildId, ChildInfo, ChildType, ChildView,
};

verus! {

/// One step of a restart: shut down the child at a position, or spawn it
/// again from its specification.
#[derive(Debug, Clone, Copy, PartialEq, Eq, Structural)]
pub enum RestartStep {
    /// Shut down the child at this position.
    Shutdown(usize),
    /// Start the child at this position again.
    Spawn(usize),
}

/// What a supervisor does after one of its children exited.
#[derive(Debug)]
pub enum TerminationAction {
    /// No child has the identifier: nothing to do.
    Ignore,
    /// The child at this position is not restarted and leaves the supervisor.
    Remove(usize),
    /// The restart intensity was exceeded: every child is shut down, in order,
    /// and the supervisor keeps no children (it goes on taking commands).
    ShutdownAll,
    /// Carry out these steps, in order; the children stay as they are.
    Restart(Vec<RestartStep>),
}

/// What a contract sees of a [`TerminationAction`].
pub enum TerminationActionView {
    /// See [`TerminationAction::Ignore`].
    Ignore,
    /// See [`TerminationAction::Remove`].
    Remove(int),
    /// See [`TerminationAction::ShutdownAll`].
    ShutdownAll,
    /// See [`TerminationAction::Restart`].
    Restart(Seq<RestartStep>),
}

impl View for TerminationAction {
    type V = TerminationActionView;

    open spec fn view(&self) -> TerminationActionView {
        match self {
            TerminationAction::Ignore => TerminationActionView::Ignore,
            TerminationAction::Remove(p) => TerminationActionView::Remove(*p as int),
            TerminationAction::ShutdownAll => TerminationActionView::ShutdownAll,
            TerminationAction::Restart(steps) => TerminationActionView::Restart(steps@),
        }
    }
}

/// How the initialization of a linked child ended.
#[derive(Debug)]
pub enum LinkedInit {
    /// The worker initialized successfully.
    Ready,
    /// The worker's initialization returned an error with this message.
    Failed(String),
    /// The worker went away before it reported (it panicked).
    Panicked,
    /// The worker did not report within the timeout.
    TimedOut,
}

/// What a contract sees of a supervisor.
pub struct SupervisorView {
    /// The supervisor's name.
    pub name: Seq<char>,
    /// One record per child, in start order.
    pub children: Seq<ChildView>,
    /// The restart strategy.
    pub strategy: RestartStrategy,
    /// The restart intensity.
    pub intensity: RestartIntensity,
    /// The restarts recorded within the current window, oldest first.
    pub restart_times: Seq<u128>,
}

/// The supervisor with its children replaced.
pub open spec fn with_children(v: SupervisorView, children: Seq<ChildView>) -> SupervisorView {
    SupervisorView { children, ..v }
}

/// What a linked start answers, given how the child's initialization ended.
pub open spec fn linked_start_result(
    init: LinkedInit,
    id: Seq<char>,
    timeout: std::time::Duration,
    r: Result<ChildId, SupervisorError>,
) -> bool {
    match init {
        LinkedInit::Ready => r matches Ok(c) && c@ == id,
        LinkedInit::Failed(reason) => match r {
            Err(SupervisorError::InitializationFailed { child_id, reason: why }) => child_id@ == id
                && why@ == reason@,
            _ => false,
        },
        LinkedInit::Panicked => match r {
            Err(SupervisorError::InitializationFailed { child_id, reason: why }) => child_id@ == id
                && why@ == "worker panicked during initialization"@,
            _ => false,
        },
        LinkedInit::TimedOut => match r {
            Err(SupervisorError::InitializationTimeout { child_id, timeout: t }) => child_id@ == id
                && t == timeout,
            _ => false,
        },
    }
}

/// Some child has this identifier.
pub open spec fn has_child(children: Seq<ChildView>, id: Seq<char>) -> bool {
    exists|i: int| 0 <= i < children.len() && (#[trigger] children[i]).id == id
}

/// `pos` is the first position whose child has this identifier.
pub open spec fn is_first_with_id(children: Seq<ChildView>, id: Seq<char>, pos: int) -> bool {
    &&& 0 <= pos < children.len()
    &&& children[pos].id == id
    &&& forall|j: int| 0 <= j < pos ==> (#[trigger] children[j]).id != id
}

/// The first position whose child has this identifier, or -1 if none has.
pub open spec fn first_position(children: Seq<ChildView>, id: Seq<char>) -> int
    decreases children.len(),
{
    if children.len() == 0 {
        -1
    } else if children[0].id == id {
        0
    } else {
        let r = first_position(children.drop_first(), id);
        if r < 0 {
            -1
        } else {
            r + 1
        }
    }
}

/// Whether a child with this restart policy is restarted after exiting for
/// this reason. Supervisors (no policy) are always restarted.
pub open spec fn should_restart(policy: Option<RestartPolicy>, reason: ChildExitReason) -> bool {
    match policy {
        None => true,
        Some(RestartPolicy::Permanent) => true,
        Some(RestartPolicy::Temporary) => false,
        Some(RestartPolicy::Transient) => reason == ChildExitReason::Abnormal,
    }
}

/// Shut down the children at positions `lo .. hi`, in order.
pub open spec fn shutdown_steps(lo: int, hi: int) -> Seq<RestartStep>
    decreases hi - lo,
{
    if hi <= lo {
        Seq::empty()
    } else {
        shutdown_steps(lo, hi - 1).push(RestartStep::Shutdown((hi - 1) as usize))
    }
}

/// Spawn the children at positions `lo .. hi`, in order.
pub open spec fn spawn_steps(lo: int, hi: int) -> Seq<RestartStep>
    decreases hi - lo,
{
    if hi <= lo {
        Seq::empty()
    } else {
        spawn_steps(lo, hi - 1).push(RestartStep::Spawn((hi - 1) as usize))
    }
}

/// For each position in `lo .. hi`, in order: shut the child down, then spawn it.
pub open spec fn cycle_steps(lo: int, hi: int) -> Seq<RestartStep>
    decreases hi - lo,
{
    if hi <= lo {
        Seq::empty()
    } else {
        cycle_steps(lo, hi - 1).push(RestartStep::Shutdown((hi - 1) as usize)).push(
            RestartStep::Spawn((hi - 1) as usize),
        )
    }
}

/// The steps that restart the children of a supervisor with `n` children
/// after the child at `pos` failed.
pub open spec fn restart_plan(strategy: RestartStrategy, n: int, pos: int) -> Seq<RestartStep> {
    match strategy {
        RestartStrategy::OneForOne => cycle_steps(pos, pos + 1),
        RestartStrategy::OneForAll => shutdown_steps(0, n) + spawn_steps(0, n),
        RestartStrategy::RestForOne => cycle_steps(pos, n),
    }
}

/// The supervisor after a request to start a worker with this identifier
/// and policy: the worker is added unless the identifier is taken.
pub open spec fn after_start(v: SupervisorView, id: Seq<char>, policy: RestartPolicy) -> SupervisorView {
    if has_child(v.children, id) {
        v
    } else {
        SupervisorView { children: v.children.push(worker_view(id, policy)), ..v }
    }
}

/// The supervisor after a linked start of a worker whose initialization
/// succeeded (`ready`) or not: only a ready worker is added.
pub open spec fn after_linked_start(
    v: SupervisorView,
    id: Seq<char>,
    policy: RestartPolicy,
    ready: bool,
) -> SupervisorView {
    if ready {
        with_children(v, v.children.push(worker_view(id, policy)))
    } else {
        v
    }
}

/// The supervisor after a request to terminate the child with this identifier.
pub open spec fn after_terminate(v: SupervisorView, id: Seq<char>) -> SupervisorView {
    let p = first_position(v.children, id);
    if p < 0 {
        v
    } else {
        SupervisorView { children: v.children.remove(p), ..v }
    }
}

/// The supervisor after the child with this identifier exited for `reason`
/// at time `now`.
pub open spec fn after_exit(
    v: SupervisorView,
    id: Seq<char>,
    reason: ChildExitReason,
    now: u128,
) -> SupervisorView {
    let p = first_position(v.children, id);
    if p < 0 {
        v
    } else if !should_restart(v.children[p].restart_policy, reason) {
        SupervisorView { children: v.children.remove(p), ..v }
    } else {
        let times = record_spec(v.restart_times, now, v.intensity.window_nanos());
        if times.len() > v.intensity.max_restarts {
            SupervisorView { children: Seq::empty(), restart_times: times, ..v }
        } else {
            SupervisorView { restart_times: times, ..v }
        }
    }
}

/// What the supervisor does after the child with this identifier exited for
/// `reason` at time `now`.
pub open spec fn exit_action(
    v: SupervisorView,
    id: Seq<char>,
    reason: ChildExitReason,
    now: u128,
) -> TerminationActionView {
    let p = first_position(v.children, id);
    if p < 0 {
        TerminationActionView::Ignore
    } else if !should_restart(v.children[p].restart_policy, reason) {
        TerminationActionView::Remove(p)
    } else {
        let times = record_spec(v.restart_times, now, v.intensity.window_nanos());
        if times.len() > v.intensity.max_restarts {
            TerminationActionView::ShutdownAll
        } else {
            TerminationActionView::Restart(restart_plan(v.strategy, v.children.len() as int, p))
        }
    }
}

/// `first_position` is the first position with the identifier, or -1 when
/// no child has it.
pub proof fn lemma_first_position(children: Seq<ChildView>, id: Seq<char>)
    ensures
        first_position(children, id) >= 0 ==> is_first_with_id(
            children,
            id,
            first_position(children, id),
        ),
        first_position(children, id) < 0 ==> first_position(children, id) == -1 && !has_child(
            children,
            id,
        ),
        has_child(children, id) ==> first_position(children, id) >= 0,
    decreases children.len(),
{
    if children.len() > 0 && children[0].id != id {
        let rest = children.drop_first();
        lemma_first_position(rest, id);
        let r = first_position(rest, id);
        if r >= 0 {
            assert forall|j: int| 0 <= j < r + 1 implies (#[trigger] children[j]).id != id by {
                if j > 0 {
                    assert(children[j] == rest[j - 1]);
                }
            }
        } else {
            assert forall|i: int| 0 <= i < children.len() implies (#[trigger] children[i]).id
                != id by {
                if i > 0 {
                    assert(children[i] == rest[i - 1]);
                    assert(!has_child(rest, id));
                    if rest[i - 1].id == id {
                        assert(has_child(rest, id));
                    }
                }
            }
        }
    }
}

/// A position that is first with the identifier is the one `first_position` gives.
pub proof fn lemma_first_position_unique(children: Seq<ChildView>, id: Seq<char>, pos: int)
    requires
        is_first_with_id(children, id, pos),
    ensures
        first_position(children, id) == pos,
{
    lemma_first_position(children, id);
    assert(has_child(children, id));
    let f = first_position(children, id);
    if f < pos {
        assert(children[f].id != id);
    } else if f > pos {
        assert(children[pos].id != id);
    }
}

/// The steps `cycle_steps(lo, hi)`.
fn cycle_plan(lo: usize, hi: usize) -> (r: Vec<RestartStep>)
    requires
        lo <= hi,
    ensures
        r@ == cycle_steps(lo as int, hi as int),
{
    let mut r: Vec<RestartStep> = Vec::new();
    let mut i: usize = lo;
    while i < hi
        invariant
            lo <= i <= hi,
            r@ == cycle_steps(lo as int, i as int),
        decreases hi - i,
    {
        r.push(RestartStep::Shutdown(i));
        r.push(RestartStep::Spawn(i));
        i = i + 1;
    }
    r
}

/// The steps `shutdown_steps(0, n) + spawn_steps(0, n)`.
fn all_plan(n: usize) -> (r: Vec<RestartStep>)
    ensures
        r@ == shutdown_steps(0, n as int) + spawn_steps(0, n as int),
{
    let mut r: Vec<RestartStep> = Vec::new();
    let mut i: usize = 0;
    while i < n
        invariant
            i <= n,
            r@ == shutdown_steps(0, i as int),
        decreases n - i,
    {
        r.push(RestartStep::Shutdown(i));
        i = i + 1;
    }
    let mut j: usize = 0;
    assert(r@ =~= shutdown_steps(0, n as int) + spawn_steps(0, 0));
    while j < n
        invariant
            j <= n,
            r@ == shutdown_steps(0, n as int) + spawn_steps(0, j as int),
        decreases n - j,
    {
        r.push(RestartStep::Spawn(j));
        assert(r@ =~= shutdown_steps(0, n as int) + spawn_steps(0, j + 1));
        j = j + 1;
    }
    r
}

/// The state of a running supervisor: its children and its restart policy.
pub struct SupervisorState {
    name: String,
    children: Vec<ChildInfo>,
    restart_strategy: RestartStrategy,
    restart_tracker: RestartTracker,
    created_at: std::time::Instant,
}

impl View for SupervisorState {
    type V = SupervisorView;

    closed spec fn view(&self) -> SupervisorView {
        SupervisorView {
            name: self.name@,
            children: child_views(self.children@),
            strategy: self.restart_strategy,
            intensity: self.restart_tracker.intensity_spec(),
            restart_times: self.restart_tracker.times(),
        }
    }
}

impl SupervisorState {
    /// The state of a supervisor started from `spec`: one record per child
    /// specification, in order, and no restarts recorded.
    pub fn from_spec<F>(spec: &SupervisorSpec<F>) -> (s: Self)
        ensures
            s@.name == spec.name_view(),
            s@.children == spec.child_views(),
            s@.strategy == spec.strategy_spec(),
            s@.intensity == spec.intensity_spec(),
            s@.restart_times == Seq::<u128>::empty(),
            is_sorted(s@.restart_times),
    {
        let specs = spec.children();
        let mut children: Vec<ChildInfo> = Vec::new();
        let mut i: usize = 0;
        while i < specs.len()
            invariant
                specs@ == spec.children_spec(),
                i <= specs.len(),
                child_views(children@) == spec.child_views().take(i as int),
            decreases specs.len() - i,
        {
            let info = match &specs[i] {
                ChildSpec::Worker(w) => ChildInfo {
                    id: w.id.clone(),
                    child_type: ChildType::Worker,
                    restart_policy: Some(w.restart_policy),
                },
                ChildSpec::Supervisor(s) => ChildInfo {
                    id: s.name().clone(),
                    child_type: ChildType::Supervisor,
                    restart_policy: None,
                },
            };
            assert(info@ == child_spec_view(specs@[i as int]));
            assert(spec.child_views()[i as int] == child_spec_view(specs@[i as int]));
            let ghost before = children@;
            children.push(info);
            assert(child_views(children@) =~= child_views(before).push(info@));
            assert(child_views(children@) =~= spec.child_views().take(i + 1));
            i = i + 1;
        }
        assert(spec.child_views().take(i as int) =~= spec.child_views());
        SupervisorState {
            name: spec.name().clone(),
            children,
            restart_strategy: spec.restart_strategy(),
            restart_tracker: RestartTracker::new(spec.restart_intensity()),
            created_at: instant_now(),
        }
    }

    /// The first position whose child has this identifier.
    fn position_of(&self, id: &String) -> (r: Option<usize>)
        ensures
            match r {
                Some(p) => is_first_with_id(self@.children, id@, p as int),
                None => !has_child(self@.children, id@),
            },
    {
        let mut i: usize = 0;
        while i < self.children.len()
            invariant
                i <= self.children.len(),
                forall|j: int| 0 <= j < i ==> (#[trigger] self@.children[j]).id != id@,
            decreases self.children.len() - i,
        {
            assert(self@.children[i as int] == self.children@[i as int]@);
            if self.children[i].id == *id {
                return Some(i);
            }
            i = i + 1;
        }
        None
    }

    /// Checks that a worker with this identifier may be started: fails with
    /// `ChildAlreadyExists` exactly when a child already has the identifier.
    pub fn admit_child(&self, id: &str) -> (r: Result<(), SupervisorError>)
        ensures
            r is Ok <==> !has_child(self@.children, id@),
            r matches Err(e) ==> e matches SupervisorError::ChildAlreadyExists(s) && s@ == id@,
    {
        let key = id.to_owned();
        match self.position_of(&key) {
            Some(_) => Err(SupervisorError::ChildAlreadyExists(key)),
            None => Ok(()),
        }
    }

    /// Starts a worker child: it is added after the existing children,
    /// unless a child already has the identifier.
    pub fn start_child(&mut self, id: &str, restart_policy: RestartPolicy) -> (r: Result<
        ChildId,
        SupervisorError,
    >)
        ensures
            final(self)@ == after_start(old(self)@, id@, restart_policy),
            r is Ok <==> !has_child(old(self)@.children, id@),
            r matches Ok(c) ==> c@ == id@,
            r matches Err(e) ==> e matches SupervisorError::ChildAlreadyExists(s) && s@ == id@,
    {
        let key = id.to_owned();
        match self.position_of(&key) {
            Some(_) => Err(SupervisorError::ChildAlreadyExists(key)),
            None => {
                let ghost before = self.children@;
                self.children.push(ChildInfo::worker(id, restart_policy));
                assert(child_views(self.children@) =~= child_views(before).push(
                    worker_view(id@, restart_policy),
                ));
                Ok(key)
            },
        }
    }

    /// Completes the start of a linked worker once its initialization ended:
    /// the worker is added only if it initialized successfully.
    pub fn finish_linked_start(
        &mut self,
        id: &str,
        restart_policy: RestartPolicy,
        init: LinkedInit,
        timeout: std::time::Duration,
    ) -> (r: Result<ChildId, SupervisorError>)
        ensures
            final(self)@ == after_linked_start(old(self)@, id@, restart_policy, init is Ready),
            linked_start_result(init, id@, timeout, r),
    {
        match init {
            LinkedInit::Ready => {
                let ghost before = self.children@;
                self.children.push(ChildInfo::worker(id, restart_policy));
                assert(child_views(self.children@) =~= child_views(before).push(
                    worker_view(id@, restart_policy),
                ));
                Ok(id.to_owned())
            },
            LinkedInit::Failed(reason) => Err(
                SupervisorError::InitializationFailed { child_id: id.to_owned(), reason },
            ),
            LinkedInit::Panicked => Err(
                SupervisorError::InitializationFailed {
                    child_id: id.to_owned(),
                    reason: "worker panicked during initialization".to_owned(),
                },
            ),
            LinkedInit::TimedOut => Err(
                SupervisorError::InitializationTimeout { child_id: id.to_owned(), timeout },
            ),
        }
    }

    /// Terminates the child with this identifier: the first child that has
    /// it leaves the supervisor, and its position is returned so that its
    /// process can be shut down.
    pub fn terminate_child(&mut self, id: &str) -> (r: Result<usize, SupervisorError>)
        ensures
            final(self)@ == after_terminate(old(self)@, id@),
            r is Ok <==> has_child(old(self)@.children, id@),
            r matches Ok(p) ==> is_first_with_id(old(self)@.children, id@, p as int),
            r matches Err(e) ==> e matches SupervisorError::ChildNotFound(s) && s@ == id@,
    {
        let key = id.to_owned();
        proof {
            lemma_first_position(self@.children, id@);
        }
        match self.position_of(&key) {
            Some(p) => {
                proof {
                    lemma_first_position_unique(self@.children, id@, p as int);
                }
                let ghost before = self.children@;
                self.children.remove(p);
                assert(child_views(self.children@) =~= child_views(before).remove(p as int));
                Ok(p)
            },
            None => Err(SupervisorError::ChildNotFound(key)),
        }
    }

    /// Information about every child, in start order.
    pub fn which_children(&self) -> (r: Vec<ChildInfo>)
        ensures
            child_views(r@) == self@.children,
    {
        let mut r: Vec<ChildInfo> = Vec::new();
        let mut i: usize = 0;
        while i < self.children.len()
            invariant
                i <= self.children.len(),
                child_views(r@) == self@.children.take(i as int),
            decreases self.children.len() - i,
        {
            let c = self.children[i].duplicate();
            assert(self@.children[i as int] == self.children@[i as int]@);
            let ghost before = r@;
            r.push(c);
            assert(child_views(r@) =~= child_views(before).push(c@));
            assert(child_views(r@) =~= self@.children.take(i + 1));
            i = i + 1;
        }
        assert(self@.children.take(i as int) =~= self@.children);
        r
    }

    /// Shuts the supervisor's children down: every record is dropped, and the
    /// dropped records are returned in order.
    pub fn shutdown_children(&mut self) -> (r: Vec<ChildInfo>)
        ensures
            child_views(r@) == old(self)@.children,
            final(self)@ == with_children(old(self)@, Seq::empty()),
    {
        let mut r: Vec<ChildInfo> = Vec::new();
        std::mem::swap(&mut r, &mut self.children);
        assert(child_views(self.children@) =~= Seq::<ChildView>::empty());
        r
    }

    /// Handles the exit of the child with this identifier, for `reason`, at
    /// time `now` (nanoseconds on the restart tracker's clock).
    ///
    /// A child that is not restarted (by its policy and the reason) leaves
    /// the supervisor. Otherwise the restart is recorded; if that exceeds the
    /// restart intensity every child is shut down, else the restart strategy
    /// decides which children are shut down and spawned again.
    pub fn child_terminated_at(&mut self, id: &str, reason: ChildExitReason, now: u128) -> (r:
        TerminationAction)
        ensures
            final(self)@ == after_exit(old(self)@, id@, reason, now),
            r@ == exit_action(old(self)@, id@, reason, now),
            is_sorted(old(self)@.restart_times),
            is_sorted(final(self)@.restart_times),
    {
        let key = id.to_owned();
        proof {
            use_type_invariant(&self.restart_tracker);
            self.restart_tracker.lemma_times_in_order();
            lemma_first_position(self@.children, id@);
        }
        let pos = match self.position_of(&key) {
            None => {
                return TerminationAction::Ignore;
            },
            Some(p) => p,
        };
        proof {
            lemma_first_position_unique(self@.children, id@, pos as int);
        }
        assert(self@.children[pos as int] == self.children@[pos as int]@);
        let restart = match self.children[pos].restart_policy {
            None => true,
            Some(RestartPolicy::Permanent) => true,
            Some(RestartPolicy::Temporary) => false,
            Some(RestartPolicy::Transient) => reason == ChildExitReason::Abnormal,
        };
        if !restart {
            let ghost before = self.children@;
            self.children.remove(pos);
            assert(child_views(self.children@) =~= child_views(before).remove(pos as int));
            return TerminationAction::Remove(pos);
        }
        if self.restart_tracker.record_restart_at(now) {
            self.children.clear();
            assert(child_views(self.children@) =~= Seq::<ChildView>::empty());
            return TerminationAction::ShutdownAll;
        }
        let n = self.children.len();
        let steps = match self.restart_strategy {
            RestartStrategy::OneForOne => cycle_plan(pos, pos + 1),
            RestartStrategy::OneForAll => all_plan(n),
            RestartStrategy::RestForOne => cycle_plan(pos, n),
        };
        TerminationAction::Restart(steps)
    }

    /// Handles the exit of the child with this identifier, for `reason`,
    /// reading the clock for the time of the exit.
    pub fn child_terminated(&mut self, id: &str, reason: ChildExitReason) -> (r: TerminationAction)
        ensures
            exists|now: u128|
                final(self)@ == after_exit(old(self)@, id@, reason, now) && r@ == exit_action(
                    old(self)@,
                    id@,
                    reason,
                    now,
                ),
            is_sorted(old(self)@.restart_times),
            is_sorted(final(self)@.restart_times),
    {
        let now = self.restart_tracker.clock_nanos();
        self.child_terminated_at(id, reason, now)
    }

    /// The supervisor's name.
    pub fn name(&self) -> (r: &String)
        ensures
            r@ == self@.name,
    {
        &self.name
    }

    /// The supervisor's restart strategy.
    pub fn restart_strategy(&self) -> (r: RestartStrategy)
        ensures
            r == self@.strategy,
    {
        self.restart_strategy
    }

    /// The number of children.
    pub fn child_count(&self) -> (r: usize)
        ensures
            r == self@.children.len(),
    {
        self.children.len()
    }

    /// Seconds since the supervisor was created (read from the clock).
    pub fn uptime_secs(&self) -> u64 {
        secs_since(&self.created_at)
    }
}

} // verus!
