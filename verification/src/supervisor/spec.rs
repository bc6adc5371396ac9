//! Supervisor specification and builder.
//!
//! A specification is a tree: each supervisor names its children, which are
//! workers (created by a factory of type `F`) or nested supervisors.

use std::sync::Arc;
use vstd::prelude::*;

use crate::restart::{RestartIntensity, RestartPolicy, RestartStrategy};
use crate::types::{supervisor_view, worker_view, ChildView};

verus! {

/// Specification for creating and restarting a worker.
#[derive(Clone)]
pub struct WorkerSpec<F> {
    /// The worker's identifier.
    pub id: String,
    /// Creates new worker instances (for the first start and for restarts).
    pub worker_factory: F,
    /// How the worker is treated when it terminates.
    pub restart_policy: RestartPolicy,
}

impl<F> WorkerSpec<F> {
    /// A worker specification with this identifier, factory and policy.
    pub fn new(id: &str, worker_factory: F, restart_policy: RestartPolicy) -> (w: Self)
        ensures
            w.id@ == id@,
            w.worker_factory == worker_factory,
            w.restart_policy == restart_policy,
    {
        WorkerSpec { id: id.to_owned(), worker_factory, restart_policy }
    }
}

/// Specification for a child (either a worker or a nested supervisor).
#[derive(Clone)]
pub enum ChildSpec<F> {
    /// A worker child.
    Worker(WorkerSpec<F>),
    /// A nested supervisor child.
    Supervisor(Arc<SupervisorSpec<F>>),
}

/// Describes a supervisor and its children in a tree structure.
#[derive(Clone)]
pub struct SupervisorSpec<F> {
    name: String,
    children: Vec<ChildSpec<F>>,
    restart_strategy: RestartStrategy,
    restart_intensity: RestartIntensity,
}

/// What a supervisor's child record looks like for a child specification.
pub open spec fn child_spec_view<F>(c: ChildSpec<F>) -> ChildView {
    match c {
        ChildSpec::Worker(w) => worker_view(w.id@, w.restart_policy),
        ChildSpec::Supervisor(s) => supervisor_view(s.name_view()),
    }
}

impl<F> SupervisorSpec<F> {
    /// The supervisor's name.
    pub closed spec fn name_view(&self) -> Seq<char> {
        self.name@
    }

    /// The child specifications, in start order.
    pub closed spec fn children_spec(&self) -> Seq<ChildSpec<F>> {
        self.children@
    }

    /// The restart strategy.
    pub closed spec fn strategy_spec(&self) -> RestartStrategy {
        self.restart_strategy
    }

    /// The restart intensity.
    pub closed spec fn intensity_spec(&self) -> RestartIntensity {
        self.restart_intensity
    }

    /// The child records that a supervisor started from this specification holds.
    pub open spec fn child_views(&self) -> Seq<ChildView> {
        self.children_spec().map_values(|c: ChildSpec<F>| child_spec_view(c))
    }

    /// Creates a new supervisor specification with the provided name, no
    /// children, the default strategy and the default intensity.
    pub fn new(name: &str) -> (s: Self)
        ensures
            s.name_view() == name@,
            s.children_spec() == Seq::<ChildSpec<F>>::empty(),
            s.strategy_spec() == RestartStrategy::OneForOne,
            s.intensity_spec().max_restarts == 3,
            s.intensity_spec().within_seconds == 5,
    {
        SupervisorSpec {
            name: name.to_owned(),
            children: Vec::new(),
            restart_strategy: RestartStrategy::default(),
            restart_intensity: RestartIntensity::default(),
        }
    }

    /// Sets the restart strategy for this supervisor.
    pub fn with_restart_strategy(self, strategy: RestartStrategy) -> (s: Self)
        ensures
            s.name_view() == self.name_view(),
            s.children_spec() == self.children_spec(),
            s.strategy_spec() == strategy,
            s.intensity_spec() == self.intensity_spec(),
    {
        let mut s = self;
        s.restart_strategy = strategy;
        s
    }

    /// Sets the restart intensity for this supervisor.
    pub fn with_restart_intensity(self, intensity: RestartIntensity) -> (s: Self)
        ensures
            s.name_view() == self.name_view(),
            s.children_spec() == self.children_spec(),
            s.strategy_spec() == self.strategy_spec(),
            s.intensity_spec() == intensity,
    {
        let mut s = self;
        s.restart_intensity = intensity;
        s
    }

    /// Adds a worker child to this supervisor specification.
    /// The factory is used to create new worker instances (e.g., for restarts).
    pub fn with_worker(self, id: &str, factory: F, restart_policy: RestartPolicy) -> (s: Self)
        ensures
            s.name_view() == self.name_view(),
            s.strategy_spec() == self.strategy_spec(),
            s.intensity_spec() == self.intensity_spec(),
            s.children_spec().len() == self.children_spec().len() + 1,
            s.children_spec().drop_last() == self.children_spec(),
            s.children_spec().last() matches ChildSpec::Worker(w) && w.id@ == id@
                && w.worker_factory == factory && w.restart_policy == restart_policy,
            s.child_views() == self.child_views().push(worker_view(id@, restart_policy)),
    {
        let mut s = self;
        let w = WorkerSpec::new(id, factory, restart_policy);
        s.children.push(ChildSpec::Worker(w));
        proof {
            assert(s.children@.drop_last() =~= self.children@);
            assert(s.child_views() =~= self.child_views().push(worker_view(id@, restart_policy)));
        }
        s
    }

    /// Adds a nested supervisor child to this supervisor specification.
    pub fn with_supervisor(self, supervisor: SupervisorSpec<F>) -> (s: Self)
        ensures
            s.name_view() == self.name_view(),
            s.strategy_spec() == self.strategy_spec(),
            s.intensity_spec() == self.intensity_spec(),
            s.children_spec().len() == self.children_spec().len() + 1,
            s.children_spec().drop_last() == self.children_spec(),
            s.children_spec().last() matches ChildSpec::Supervisor(a) && *a == supervisor,
            s.child_views() == self.child_views().push(supervisor_view(supervisor.name_view())),
    {
        let mut s = self;
        let ghost nested = supervisor;
        s.children.push(ChildSpec::Supervisor(Arc::new(supervisor)));
        proof {
            assert(s.children@.drop_last() =~= self.children@);
            assert(s.child_views() =~= self.child_views().push(supervisor_view(nested.name_view())));
        }
        s
    }

    /// The supervisor's name.
    pub fn name(&self) -> (r: &String)
        ensures
            r@ == self.name_view(),
    {
        &self.name
    }

    /// The child specifications, in start order.
    pub fn children(&self) -> (r: &Vec<ChildSpec<F>>)
        ensures
            r@ == self.children_spec(),
    {
        &self.children
    }

    /// The restart strategy.
    pub fn restart_strategy(&self) -> (r: RestartStrategy)
        ensures
            r == self.strategy_spec(),
    {
        self.restart_strategy
    }

    /// The restart intensity.
    pub fn restart_intensity(&self) -> (r: RestartIntensity)
        ensures
            r == self.intensity_spec(),
    {
        self.restart_intensity
    }
}

} // verus!
