//! The lifecycle of a worker process, and worker errors.
//!
//! A worker is initialized, then run, then shut down, and its supervisor is
//! told how it ended. A worker that its supervisor asks to stop is shut down
//! too, and nothing is reported. [`WorkerLifecycle`] decides, after each
//! stage, what happens next; whoever drives the worker performs the stages.

use vstd::prelude::*;

use crate::supervisor::error::concat3;
use crate::types::ChildExitReason;

verus! {

/// Errors returned by worker operations.
#[derive(Debug)]
pub enum WorkerError {
    /// Command channel was closed unexpectedly.
    CommandChannelClosed(String),
    /// Worker panicked during execution.
    WorkerPanicked(String),
    /// Worker failed with an error.
    WorkerFailed(String),
}

impl WorkerError {
    /// The human-readable message of this error.
    pub fn to_string(&self) -> (r: String)
        ensures
            match self {
                WorkerError::CommandChannelClosed(name) => r@ == "command channel to "@ + name@
                    + " is closed"@,
                WorkerError::WorkerPanicked(name) => r@ == "worker "@ + name@ + " panicked"@,
                WorkerError::WorkerFailed(msg) => r@ == "worker failed: "@ + msg@ + ""@,
            },
    {
        match self {
            WorkerError::CommandChannelClosed(name) => concat3(
                "command channel to ",
                name.as_str(),
                " is closed",
            ),
            WorkerError::WorkerPanicked(name) => concat3("worker ", name.as_str(), " panicked"),
            WorkerError::WorkerFailed(msg) => concat3("worker failed: ", msg.as_str(), ""),
        }
    }
}

/// Where a worker is in its lifecycle.
#[derive(Debug, Clone, Copy, PartialEq, Eq, Structural)]
pub enum LifecyclePhase {
    /// `initialize` is running.
    Initializing,
    /// `initialize` is running and the worker has been asked to stop: it will
    /// not run, and its end will not be reported.
    StopPending,
    /// `run` is running.
    Running,
    /// `shutdown` is running; the worker will be reported as ended for this reason.
    ShuttingDown(ChildExitReason),
    /// `shutdown` is running because the worker was asked to stop; its end is
    /// not reported, as whoever stopped it knows.
    Stopping,
    /// The worker is done and its supervisor has been told.
    Stopped,
}

/// How a stage of the worker ended.
#[derive(Debug, Clone, Copy, PartialEq, Eq, Structural)]
pub enum LifecycleEvent {
    /// `initialize` returned `Ok`.
    Initialized,
    /// `initialize` returned an error.
    InitializationFailed,
    /// `run` returned: `true` for `Ok`, `false` for an error.
    RunFinished(bool),
    /// `shutdown` returned (its error, if any, is only logged).
    ShutdownFinished,
    /// The worker was asked to stop; a running `initialize` or `run` was
    /// abandoned (an abandoned `initialize` then counts as failed).
    StopRequested,
}

/// What has to be done next for a worker.
#[derive(Debug, Clone, Copy, PartialEq, Eq, Structural)]
pub enum LifecycleAction {
    /// Tell the waiting starter that initialization succeeded.
    ReportInitialized,
    /// Tell the waiting starter that initialization failed (with its message).
    ReportInitFailure,
    /// Call the worker's `run`.
    Run,
    /// Call the worker's `shutdown`.
    Shutdown,
    /// Tell the supervisor that the worker ended, for this reason.
    NotifyExit(ChildExitReason),
}

/// The phase after an event, and the actions it calls for.
pub open spec fn lifecycle_step(phase: LifecyclePhase, linked: bool, event: LifecycleEvent) -> (
    LifecyclePhase,
    Seq<LifecycleAction>,
) {
    match (phase, event) {
        (LifecyclePhase::Initializing, LifecycleEvent::Initialized) => (
            LifecyclePhase::Running,
            if linked {
                seq![LifecycleAction::ReportInitialized, LifecycleAction::Run]
            } else {
                seq![LifecycleAction::Run]
            },
        ),
        (LifecyclePhase::Initializing, LifecycleEvent::InitializationFailed) => (
            LifecyclePhase::Stopped,
            if linked {
                seq![
                    LifecycleAction::ReportInitFailure,
                    LifecycleAction::NotifyExit(ChildExitReason::Abnormal),
                ]
            } else {
                seq![LifecycleAction::NotifyExit(ChildExitReason::Abnormal)]
            },
        ),
        (LifecyclePhase::Running, LifecycleEvent::RunFinished(ok)) => (
            LifecyclePhase::ShuttingDown(
                if ok {
                    ChildExitReason::Normal
                } else {
                    ChildExitReason::Abnormal
                },
            ),
            seq![LifecycleAction::Shutdown],
        ),
        (LifecyclePhase::ShuttingDown(reason), LifecycleEvent::ShutdownFinished) => (
            LifecyclePhase::Stopped,
            seq![LifecycleAction::NotifyExit(reason)],
        ),
        (LifecyclePhase::Initializing, LifecycleEvent::StopRequested) => (
            LifecyclePhase::StopPending,
            Seq::empty(),
        ),
        (LifecyclePhase::StopPending, LifecycleEvent::Initialized) => (
            LifecyclePhase::Stopping,
            if linked {
                seq![LifecycleAction::ReportInitialized, LifecycleAction::Shutdown]
            } else {
                seq![LifecycleAction::Shutdown]
            },
        ),
        (LifecyclePhase::StopPending, LifecycleEvent::InitializationFailed) => (
            LifecyclePhase::Stopped,
            if linked {
                seq![LifecycleAction::ReportInitFailure]
            } else {
                Seq::empty()
            },
        ),
        (LifecyclePhase::Running, LifecycleEvent::StopRequested) => (
            LifecyclePhase::Stopping,
            seq![LifecycleAction::Shutdown],
        ),
        (LifecyclePhase::ShuttingDown(_), LifecycleEvent::StopRequested) => (
            LifecyclePhase::Stopping,
            Seq::empty(),
        ),
        (LifecyclePhase::Stopping, LifecycleEvent::ShutdownFinished) => (
            LifecyclePhase::Stopped,
            Seq::empty(),
        ),
        _ => (phase, Seq::empty()),
    }
}

/// The phase and the actions after a sequence of events, from `phase`.
pub open spec fn lifecycle_run(phase: LifecyclePhase, linked: bool, events: Seq<LifecycleEvent>) -> (
    LifecyclePhase,
    Seq<LifecycleAction>,
)
    decreases events.len(),
{
    if events.len() == 0 {
        (phase, Seq::empty())
    } else {
        let (next, acts) = lifecycle_step(phase, linked, events[0]);
        let (last, rest) = lifecycle_run(next, linked, events.drop_first());
        (last, acts + rest)
    }
}

/// Decides the stages of one worker process: initialize, run, shut down,
/// report the exit.
#[derive(Debug)]
pub struct WorkerLifecycle {
    phase: LifecyclePhase,
    linked: bool,
}

impl WorkerLifecycle {
    /// The current phase.
    pub closed spec fn phase_spec(&self) -> LifecyclePhase {
        self.phase
    }

    /// Whether a starter waits for the result of initialization.
    pub closed spec fn linked_spec(&self) -> bool {
        self.linked
    }

    /// A worker about to be initialized. `linked` is true when the starter
    /// waits for the outcome of initialization.
    pub fn new(linked: bool) -> (l: Self)
        ensures
            l.phase_spec() == LifecyclePhase::Initializing,
            l.linked_spec() == linked,
    {
        WorkerLifecycle { phase: LifecyclePhase::Initializing, linked }
    }

    /// The current phase.
    pub fn phase(&self) -> (p: LifecyclePhase)
        ensures
            p == self.phase_spec(),
    {
        self.phase
    }

    /// Takes the outcome of a stage and returns what to do next.
    pub fn on_event(&mut self, event: LifecycleEvent) -> (actions: Vec<LifecycleAction>)
        ensures
            final(self).linked_spec() == old(self).linked_spec(),
            (final(self).phase_spec(), actions@) == lifecycle_step(
                old(self).phase_spec(),
                old(self).linked_spec(),
                event,
            ),
    {
        let mut actions: Vec<LifecycleAction> = Vec::new();
        match (self.phase, event) {
            (LifecyclePhase::Initializing, LifecycleEvent::Initialized) => {
                if self.linked {
                    actions.push(LifecycleAction::ReportInitialized);
                }
                actions.push(LifecycleAction::Run);
                self.phase = LifecyclePhase::Running;
            },
            (LifecyclePhase::Initializing, LifecycleEvent::InitializationFailed) => {
                if self.linked {
                    actions.push(LifecycleAction::ReportInitFailure);
                }
                actions.push(LifecycleAction::NotifyExit(ChildExitReason::Abnormal));
                self.phase = LifecyclePhase::Stopped;
            },
            (LifecyclePhase::Running, LifecycleEvent::RunFinished(ok)) => {
                let reason = if ok {
                    ChildExitReason::Normal
                } else {
                    ChildExitReason::Abnormal
                };
                actions.push(LifecycleAction::Shutdown);
                self.phase = LifecyclePhase::ShuttingDown(reason);
            },
            (LifecyclePhase::ShuttingDown(reason), LifecycleEvent::ShutdownFinished) => {
                actions.push(LifecycleAction::NotifyExit(reason));
                self.phase = LifecyclePhase::Stopped;
            },
            (LifecyclePhase::Initializing, LifecycleEvent::StopRequested) => {
                self.phase = LifecyclePhase::StopPending;
            },
            (LifecyclePhase::StopPending, LifecycleEvent::Initialized) => {
                if self.linked {
                    actions.push(LifecycleAction::ReportInitialized);
                }
                actions.push(LifecycleAction::Shutdown);
                self.phase = LifecyclePhase::Stopping;
            },
            (LifecyclePhase::StopPending, LifecycleEvent::InitializationFailed) => {
                if self.linked {
                    actions.push(LifecycleAction::ReportInitFailure);
                }
                self.phase = LifecyclePhase::Stopped;
            },
            (LifecyclePhase::Running, LifecycleEvent::StopRequested) => {
                actions.push(LifecycleAction::Shutdown);
                self.phase = LifecyclePhase::Stopping;
            },
            (LifecyclePhase::ShuttingDown(_), LifecycleEvent::StopRequested) => {
                self.phase = LifecyclePhase::Stopping;
            },
            (LifecyclePhase::Stopping, LifecycleEvent::ShutdownFinished) => {
                self.phase = LifecyclePhase::Stopped;
            },
            _ => {},
        }
        proof {
            let (p, a) = lifecycle_step(old(self).phase_spec(), old(self).linked_spec(), event);
            assert(actions@ =~= a);
        }
        actions
    }
}

/// A worker whose initialization, run and shutdown all complete is reported
/// to its supervisor exactly once, after its shutdown, as having ended
/// normally if its run succeeded and abnormally if it failed.
pub proof fn law_completed_worker_reports_its_run(linked: bool, run_ok: bool)
    ensures
        ({
            let events = seq![
                LifecycleEvent::Initialized,
                LifecycleEvent::RunFinished(run_ok),
                LifecycleEvent::ShutdownFinished,
            ];
            let reason = if run_ok {
                ChildExitReason::Normal
            } else {
                ChildExitReason::Abnormal
            };
            let start = if linked {
                seq![LifecycleAction::ReportInitialized]
            } else {
                Seq::empty()
            };
            lifecycle_run(LifecyclePhase::Initializing, linked, events) == (
                LifecyclePhase::Stopped,
                start + seq![
                    LifecycleAction::Run,
                    LifecycleAction::Shutdown,
                    LifecycleAction::NotifyExit(reason),
                ],
            )
        }),
{
    let events = seq![
        LifecycleEvent::Initialized,
        LifecycleEvent::RunFinished(run_ok),
        LifecycleEvent::ShutdownFinished,
    ];
    let e1 = events.drop_first();
    let e2 = e1.drop_first();
    let e3 = e2.drop_first();
    assert(e3.len() == 0);
    assert(e1[0] == LifecycleEvent::RunFinished(run_ok));
    assert(e2[0] == LifecycleEvent::ShutdownFinished);
    let reason = if run_ok {
        ChildExitReason::Normal
    } else {
        ChildExitReason::Abnormal
    };
    let start = if linked {
        seq![LifecycleAction::ReportInitialized]
    } else {
        Seq::<LifecycleAction>::empty()
    };
    assert(lifecycle_run(LifecyclePhase::Stopped, linked, e3) == (
        LifecyclePhase::Stopped,
        Seq::<LifecycleAction>::empty(),
    ));
    let r2 = lifecycle_run(LifecyclePhase::ShuttingDown(reason), linked, e2);
    assert(r2.0 == LifecyclePhase::Stopped);
    assert(r2.1 =~= seq![LifecycleAction::NotifyExit(reason)]);
    let r1 = lifecycle_run(LifecyclePhase::Running, linked, e1);
    assert(r1.1 =~= seq![LifecycleAction::Shutdown, LifecycleAction::NotifyExit(reason)]);
    let r0 = lifecycle_run(LifecyclePhase::Initializing, linked, events);
    assert(r0.1 =~= start + seq![
        LifecycleAction::Run,
        LifecycleAction::Shutdown,
        LifecycleAction::NotifyExit(reason),
    ]);
}

/// A worker whose initialization fails is never run nor shut down: its
/// supervisor is told at once that it ended abnormally.
pub proof fn law_failed_initialization_is_reported_abnormal(linked: bool)
    ensures
        lifecycle_run(LifecyclePhase::Initializing, linked, seq![LifecycleEvent::InitializationFailed])
            == (
            LifecyclePhase::Stopped,
            if linked {
                seq![
                    LifecycleAction::ReportInitFailure,
                    LifecycleAction::NotifyExit(ChildExitReason::Abnormal),
                ]
            } else {
                seq![LifecycleAction::NotifyExit(ChildExitReason::Abnormal)]
            },
        ),
{
    let events = seq![LifecycleEvent::InitializationFailed];
    assert(events.drop_first().len() == 0);
    assert(lifecycle_run(LifecyclePhase::Stopped, linked, events.drop_first()) == (
        LifecyclePhase::Stopped,
        Seq::<LifecycleAction>::empty(),
    ));
    let r = lifecycle_run(LifecyclePhase::Initializing, linked, events);
    if linked {
        assert(r.1 =~= seq![
            LifecycleAction::ReportInitFailure,
            LifecycleAction::NotifyExit(ChildExitReason::Abnormal),
        ]);
    } else {
        assert(r.1 =~= seq![LifecycleAction::NotifyExit(ChildExitReason::Abnormal)]);
    }
}

/// A running worker that is asked to stop is shut down, and its supervisor
/// is not told that it ended.
pub proof fn law_stopped_worker_is_shut_down_unreported(linked: bool)
    ensures
        ({
            let events = seq![
                LifecycleEvent::Initialized,
                LifecycleEvent::StopRequested,
                LifecycleEvent::ShutdownFinished,
            ];
            let start = if linked {
                seq![LifecycleAction::ReportInitialized]
            } else {
                Seq::empty()
            };
            lifecycle_run(LifecyclePhase::Initializing, linked, events) == (
                LifecyclePhase::Stopped,
                start + seq![LifecycleAction::Run, LifecycleAction::Shutdown],
            )
        }),
{
    let events = seq![
        LifecycleEvent::Initialized,
        LifecycleEvent::StopRequested,
        LifecycleEvent::ShutdownFinished,
    ];
    let e1 = events.drop_first();
    let e2 = e1.drop_first();
    let e3 = e2.drop_first();
    assert(e3.len() == 0);
    assert(e1[0] == LifecycleEvent::StopRequested);
    assert(e2[0] == LifecycleEvent::ShutdownFinished);
    let start = if linked {
        seq![LifecycleAction::ReportInitialized]
    } else {
        Seq::<LifecycleAction>::empty()
    };
    assert(lifecycle_run(LifecyclePhase::Stopped, linked, e3) == (
        LifecyclePhase::Stopped,
        Seq::<LifecycleAction>::empty(),
    ));
    let r2 = lifecycle_run(LifecyclePhase::Stopping, linked, e2);
    assert(r2.0 == LifecyclePhase::Stopped);
    assert(r2.1 =~= Seq::<LifecycleAction>::empty());
    let r1 = lifecycle_run(LifecyclePhase::Running, linked, e1);
    assert(r1.1 =~= seq![LifecycleAction::Shutdown]);
    let r0 = lifecycle_run(LifecyclePhase::Initializing, linked, events);
    assert(r0.1 =~= start + seq![LifecycleAction::Run, LifecycleAction::Shutdown]);
}

/// The phases in which the worker has been asked to stop (or is done): its
/// end is no longer reported.
pub open spec fn is_silenced(phase: LifecyclePhase) -> bool {
    phase == LifecyclePhase::StopPending || phase == LifecyclePhase::Stopping || phase
        == LifecyclePhase::Stopped
}

/// A worker that is asked to stop while it initializes, runs or shuts down
/// is never reported to its supervisor as having ended, whatever happens
/// after.
pub proof fn law_stop_request_silences_the_exit_report(
    phase: LifecyclePhase,
    linked: bool,
    events: Seq<LifecycleEvent>,
)
    requires
        phase == LifecyclePhase::Initializing || phase == LifecyclePhase::Running
            || phase is ShuttingDown,
    ensures
        ({
            let (after_stop, _) = lifecycle_step(phase, linked, LifecycleEvent::StopRequested);
            let (_, acts) = lifecycle_run(after_stop, linked, events);
            forall|i: int| 0 <= i < acts.len() ==> !(#[trigger] acts[i] is NotifyExit)
        }),
{
    let (after_stop, _) = lifecycle_step(phase, linked, LifecycleEvent::StopRequested);
    lemma_silenced_reports_nothing(after_stop, linked, events);
}

/// From a silenced phase, no sequence of events asks for an exit report, and
/// the worker stays silenced.
proof fn lemma_silenced_reports_nothing(
    phase: LifecyclePhase,
    linked: bool,
    events: Seq<LifecycleEvent>,
)
    requires
        is_silenced(phase),
    ensures
        ({
            let (last, acts) = lifecycle_run(phase, linked, events);
            &&& is_silenced(last)
            &&& forall|i: int| 0 <= i < acts.len() ==> !(#[trigger] acts[i] is NotifyExit)
        }),
    decreases events.len(),
{
    if events.len() > 0 {
        let (n, a) = lifecycle_step(phase, linked, events[0]);
        assert(is_silenced(n));
        assert(forall|i: int| 0 <= i < a.len() ==> !(#[trigger] a[i] is NotifyExit));
        lemma_silenced_reports_nothing(n, linked, events.drop_first());
        let (l, r) = lifecycle_run(n, linked, events.drop_first());
        let acts = lifecycle_run(phase, linked, events).1;
        assert(acts =~= a + r);
        assert forall|i: int| 0 <= i < acts.len() implies !(#[trigger] acts[i] is NotifyExit) by {
            if i < a.len() {
                assert(acts[i] == a[i]);
            } else {
                assert(acts[i] == r[i - a.len()]);
            }
        }
    }
}

/// Once stopped, a worker stays stopped and asks for nothing more.
pub proof fn law_stopped_worker_stays_stopped(linked: bool, event: LifecycleEvent)
    ensures
        lifecycle_step(LifecyclePhase::Stopped, linked, event) == (
            LifecyclePhase::Stopped,
            Seq::<LifecycleAction>::empty(),
        ),
{
}

} // verus!
