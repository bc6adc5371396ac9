//! Properties of the supervisor's decisions that span several operations.

use vstd::prelude::*;

use crate::restart::{is_stale, record_spec, RestartPolicy, RestartStrategy};
use crate::supervisor::state::{
    after_exit, after_linked_start, after_start, after_terminate, cycle_steps, exit_action,
    first_position, has_child,
    is_first_with_id, lemma_first_position, lemma_first_position_unique, restart_plan,
    shutdown_steps, spawn_steps, with_children, RestartStep, SupervisorView, TerminationActionView,
};
use crate::types::{worker_view, ChildExitReason, ChildView};

verus! {

/// `shutdown_steps(lo, hi)` shuts down `lo, lo + 1, .., hi - 1`, in order.
pub proof fn lemma_shutdown_steps(lo: int, hi: int)
    requires
        0 <= lo <= hi,
    ensures
        shutdown_steps(lo, hi).len() == hi - lo,
        forall|k: int|
            0 <= k < hi - lo ==> #[trigger] shutdown_steps(lo, hi)[k] == RestartStep::Shutdown(
                (lo + k) as usize,
            ),
    decreases hi - lo,
{
    if hi > lo {
        lemma_shutdown_steps(lo, hi - 1);
    }
}

/// `spawn_steps(lo, hi)` spawns `lo, lo + 1, .., hi - 1`, in order.
pub proof fn lemma_spawn_steps(lo: int, hi: int)
    requires
        0 <= lo <= hi,
    ensures
        spawn_steps(lo, hi).len() == hi - lo,
        forall|k: int|
            0 <= k < hi - lo ==> #[trigger] spawn_steps(lo, hi)[k] == RestartStep::Spawn(
                (lo + k) as usize,
            ),
    decreases hi - lo,
{
    if hi > lo {
        lemma_spawn_steps(lo, hi - 1);
    }
}

/// `cycle_steps(lo, hi)` shuts down and then spawns `lo`, then `lo + 1`, ...
pub proof fn lemma_cycle_steps(lo: int, hi: int)
    requires
        0 <= lo <= hi,
    ensures
        cycle_steps(lo, hi).len() == 2 * (hi - lo),
        forall|k: int|
            0 <= k < hi - lo ==> #[trigger] cycle_steps(lo, hi)[2 * k] == RestartStep::Shutdown(
                (lo + k) as usize,
            ) && cycle_steps(lo, hi)[2 * k + 1] == RestartStep::Spawn((lo + k) as usize),
    decreases hi - lo,
{
    if hi > lo {
        lemma_cycle_steps(lo, hi - 1);
        let prev = cycle_steps(lo, hi - 1);
        assert forall|k: int| 0 <= k < hi - lo implies #[trigger] cycle_steps(lo, hi)[2 * k]
            == RestartStep::Shutdown((lo + k) as usize) && cycle_steps(lo, hi)[2 * k + 1]
            == RestartStep::Spawn((lo + k) as usize) by {
            if k < hi - 1 - lo {
                assert(cycle_steps(lo, hi)[2 * k] == prev[2 * k]);
                assert(cycle_steps(lo, hi)[2 * k + 1] == prev[2 * k + 1]);
            }
        }
    }
}

/// One-for-one: after the child at `pos` failed, that child alone is shut
/// down and spawned again.
pub proof fn law_one_for_one_restarts_only_the_failed_child(n: int, pos: int)
    requires
        0 <= pos < n,
    ensures
        restart_plan(RestartStrategy::OneForOne, n, pos) == seq![
            RestartStep::Shutdown(pos as usize),
            RestartStep::Spawn(pos as usize),
        ],
{
    lemma_cycle_steps(pos, pos + 1);
    assert(restart_plan(RestartStrategy::OneForOne, n, pos) =~= seq![
        RestartStep::Shutdown(pos as usize),
        RestartStep::Spawn(pos as usize),
    ]);
}

/// One-for-all: every child is shut down, in order, and then every child is
/// spawned again, in order.
pub proof fn law_one_for_all_restarts_every_child(n: int, pos: int)
    requires
        0 <= pos < n,
    ensures
        restart_plan(RestartStrategy::OneForAll, n, pos).len() == 2 * n,
        forall|k: int|
            0 <= k < n ==> #[trigger] restart_plan(RestartStrategy::OneForAll, n, pos)[k]
                == RestartStep::Shutdown(k as usize),
        forall|k: int|
            0 <= k < n ==> #[trigger] restart_plan(RestartStrategy::OneForAll, n, pos)[n + k]
                == RestartStep::Spawn(k as usize),
{
    lemma_shutdown_steps(0, n);
    lemma_spawn_steps(0, n);
    let plan = restart_plan(RestartStrategy::OneForAll, n, pos);
    assert forall|k: int| 0 <= k < n implies #[trigger] plan[n + k] == RestartStep::Spawn(
        k as usize,
    ) by {
        assert(plan[n + k] == spawn_steps(0, n)[k]);
    }
}

/// Rest-for-one: the failed child and every child after it are shut down and
/// spawned again, one after the other, in order; the children before it are
/// left alone.
pub proof fn law_rest_for_one_restarts_the_rest(n: int, pos: int)
    requires
        0 <= pos < n,
    ensures
        restart_plan(RestartStrategy::RestForOne, n, pos).len() == 2 * (n - pos),
        forall|k: int|
            0 <= k < n - pos ==> #[trigger] restart_plan(RestartStrategy::RestForOne, n, pos)[2
                * k] == RestartStep::Shutdown((pos + k) as usize) && restart_plan(
                RestartStrategy::RestForOne,
                n,
                pos,
            )[2 * k + 1] == RestartStep::Spawn((pos + k) as usize),
{
    lemma_cycle_steps(pos, n);
}

/// A worker that was just started can be terminated again, and terminating
/// it gives back the supervisor as it was before the start.
pub proof fn law_terminate_undoes_start(v: SupervisorView, id: Seq<char>, policy: RestartPolicy)
    requires
        !has_child(v.children, id),
    ensures
        has_child(after_start(v, id, policy).children, id),
        first_position(after_start(v, id, policy).children, id) == v.children.len(),
        after_terminate(after_start(v, id, policy), id) == v,
{
    let s = after_start(v, id, policy);
    let n = v.children.len() as int;
    assert(s.children[n] == worker_view(id, policy));
    assert forall|j: int| 0 <= j < n implies (#[trigger] s.children[j]).id != id by {
        assert(s.children[j] == v.children[j]);
    }
    assert(is_first_with_id(s.children, id, n));
    lemma_first_position_unique(s.children, id, n);
    assert(s.children.remove(n) =~= v.children);
}

/// Starting a worker under an identifier that is taken changes nothing.
pub proof fn law_duplicate_start_changes_nothing(
    v: SupervisorView,
    id: Seq<char>,
    policy: RestartPolicy,
)
    requires
        has_child(v.children, id),
    ensures
        after_start(v, id, policy) == v,
{
}

/// Terminating the only child with an identifier leaves no child with it,
/// and the other children keep their order.
pub proof fn law_terminated_child_is_gone(v: SupervisorView, id: Seq<char>, pos: int)
    requires
        0 <= pos < v.children.len(),
        v.children[pos].id == id,
        forall|j: int| 0 <= j < v.children.len() && j != pos ==> (#[trigger] v.children[j]).id != id,
    ensures
        !has_child(after_terminate(v, id).children, id),
        after_terminate(v, id).children == v.children.remove(pos),
{
    assert(is_first_with_id(v.children, id, pos));
    lemma_first_position_unique(v.children, id, pos);
    let r = v.children.remove(pos);
    assert forall|i: int| 0 <= i < r.len() implies (#[trigger] r[i]).id != id by {
        if i < pos {
            assert(r[i] == v.children[i]);
        } else {
            assert(r[i] == v.children[i + 1]);
        }
    }
}

/// An exit reported for an identifier that no child has is ignored.
pub proof fn law_unknown_exit_is_ignored(
    v: SupervisorView,
    id: Seq<char>,
    reason: ChildExitReason,
    now: u128,
)
    requires
        !has_child(v.children, id),
    ensures
        exit_action(v, id, reason, now) == TerminationActionView::Ignore,
        after_exit(v, id, reason, now) == v,
{
    lemma_first_position(v.children, id);
}

/// A temporary child is never restarted: whatever the reason, it leaves the
/// supervisor, and no restart is recorded.
pub proof fn law_temporary_child_is_never_restarted(
    v: SupervisorView,
    id: Seq<char>,
    pos: int,
    reason: ChildExitReason,
    now: u128,
)
    requires
        is_first_with_id(v.children, id, pos),
        v.children[pos].restart_policy == Some(RestartPolicy::Temporary),
    ensures
        exit_action(v, id, reason, now) == TerminationActionView::Remove(pos),
        after_exit(v, id, reason, now) == with_children(v, v.children.remove(pos)),
{
    lemma_first_position_unique(v.children, id, pos);
}

/// A transient child is restarted only after an abnormal exit: after a
/// normal exit or a shutdown it leaves the supervisor.
pub proof fn law_transient_child_restarts_only_on_abnormal_exit(
    v: SupervisorView,
    id: Seq<char>,
    pos: int,
    reason: ChildExitReason,
    now: u128,
)
    requires
        is_first_with_id(v.children, id, pos),
        v.children[pos].restart_policy == Some(RestartPolicy::Transient),
    ensures
        reason != ChildExitReason::Abnormal ==> exit_action(v, id, reason, now)
            == TerminationActionView::Remove(pos),
        reason == ChildExitReason::Abnormal ==> !(exit_action(v, id, reason, now) is Remove),
{
    lemma_first_position_unique(v.children, id, pos);
}

/// A permanent child or a nested supervisor is always restarted, unless the
/// restart exceeds the intensity: then the supervisor keeps no children.
/// A restart never changes the list of children.
pub proof fn law_permanent_child_is_restarted(
    v: SupervisorView,
    id: Seq<char>,
    pos: int,
    reason: ChildExitReason,
    now: u128,
)
    requires
        is_first_with_id(v.children, id, pos),
        v.children[pos].restart_policy == Some(RestartPolicy::Permanent)
            || v.children[pos].restart_policy == None::<RestartPolicy>,
    ensures
        exit_action(v, id, reason, now) is Restart || exit_action(v, id, reason, now)
            is ShutdownAll,
        exit_action(v, id, reason, now) is Restart ==> after_exit(v, id, reason, now).children
            == v.children,
        exit_action(v, id, reason, now) is Restart ==> exit_action(v, id, reason, now)
            == TerminationActionView::Restart(
            restart_plan(v.strategy, v.children.len() as int, pos),
        ),
        exit_action(v, id, reason, now) is ShutdownAll ==> after_exit(
            v,
            id,
            reason,
            now,
        ).children.len() == 0,
{
    lemma_first_position_unique(v.children, id, pos);
}

/// Dropping the stale prefix never lengthens the queue.
proof fn lemma_drop_stale_prefix_shrinks(times: Seq<u128>, now: int, window: int)
    ensures
        crate::restart::drop_stale_prefix(times, now, window).len() <= times.len(),
    decreases times.len(),
{
    if times.len() > 0 && is_stale(times[0] as int, now, window) {
        lemma_drop_stale_prefix_shrinks(times.drop_first(), now, window);
    }
}

/// A child whose policy calls for a restart after this exit (a permanent
/// worker, a nested supervisor, or a transient worker after an abnormal
/// exit) is restarted by the supervisor's strategy whenever fewer than
/// `max_restarts` restarts are recorded (in time order, as a supervisor keeps
/// them): the children stay as they are, the restart is recorded at a time no
/// earlier than `now` nor than any earlier restart, and the steps are
/// - one-for-one: the child is shut down and spawned again, nothing else;
/// - one-for-all: every child is shut down in order, then every child is
///   spawned again in order;
/// - rest-for-one: the child and each one after it are shut down and spawned
///   again, one after the other, in order.
pub proof fn law_restartable_exit_follows_the_strategy(
    v: SupervisorView,
    id: Seq<char>,
    pos: int,
    reason: ChildExitReason,
    now: u128,
)
    requires
        is_first_with_id(v.children, id, pos),
        v.children[pos].restart_policy == Some(RestartPolicy::Permanent)
            || v.children[pos].restart_policy == None::<RestartPolicy>
            || (v.children[pos].restart_policy == Some(RestartPolicy::Transient) && reason
            == ChildExitReason::Abnormal),
        v.restart_times.len() < v.intensity.max_restarts,
        crate::restart::is_sorted(v.restart_times),
    ensures
        exit_action(v, id, reason, now) is Restart,
        after_exit(v, id, reason, now).children == v.children,
        after_exit(v, id, reason, now).strategy == v.strategy,
        after_exit(v, id, reason, now).intensity == v.intensity,
        1 <= after_exit(v, id, reason, now).restart_times.len() <= v.restart_times.len() + 1,
        after_exit(v, id, reason, now).restart_times.last() >= now,
        forall|i: int|
            0 <= i < v.restart_times.len() ==> #[trigger] v.restart_times[i] <= after_exit(
                v,
                id,
                reason,
                now,
            ).restart_times.last(),
        ({
            let n = v.children.len() as int;
            let steps = exit_action(v, id, reason, now)->Restart_0;
            &&& v.strategy == RestartStrategy::OneForOne ==> steps == seq![
                RestartStep::Shutdown(pos as usize),
                RestartStep::Spawn(pos as usize),
            ]
            &&& v.strategy == RestartStrategy::OneForAll ==> {
                &&& steps.len() == 2 * n
                &&& forall|k: int| 0 <= k < n ==> #[trigger] steps[k] == RestartStep::Shutdown(k as usize)
                &&& forall|k: int| 0 <= k < n ==> #[trigger] steps[n + k] == RestartStep::Spawn(k as usize)
            }
            &&& v.strategy == RestartStrategy::RestForOne ==> {
                &&& steps.len() == 2 * (n - pos)
                &&& forall|k: int|
                    0 <= k < n - pos ==> #[trigger] steps[2 * k] == RestartStep::Shutdown(
                        (pos + k) as usize,
                    ) && steps[2 * k + 1] == RestartStep::Spawn((pos + k) as usize)
            }
        }),
{
    lemma_first_position_unique(v.children, id, pos);
    let at = crate::restart::record_time(v.restart_times, now);
    lemma_drop_stale_prefix_shrinks(v.restart_times, at as int, v.intensity.window_nanos());
    crate::restart::law_window_keeps_exactly_the_recent_restarts(
        v.restart_times,
        now,
        v.intensity.window_nanos(),
    );
    let n = v.children.len() as int;
    assert(0 <= pos < n);
    match v.strategy {
        RestartStrategy::OneForOne => law_one_for_one_restarts_only_the_failed_child(n, pos),
        RestartStrategy::OneForAll => law_one_for_all_restarts_every_child(n, pos),
        RestartStrategy::RestForOne => law_rest_for_one_restarts_the_rest(n, pos),
    }
}

/// Restarts that exceed the intensity shut the whole supervisor down: when
/// the restarts already recorded lie in the window ending at `now` (and none
/// later than `now`, as the clock is monotonic) and number at least
/// `max_restarts`, the next restart of a child whose policy calls for one (a
/// permanent worker, a nested supervisor, or a transient worker after an
/// abnormal exit) empties the supervisor.
pub proof fn law_too_many_restarts_shut_everything_down(
    v: SupervisorView,
    id: Seq<char>,
    pos: int,
    reason: ChildExitReason,
    now: u128,
)
    requires
        is_first_with_id(v.children, id, pos),
        v.children[pos].restart_policy == Some(RestartPolicy::Permanent)
            || v.children[pos].restart_policy == None::<RestartPolicy>
            || (v.children[pos].restart_policy == Some(RestartPolicy::Transient) && reason
            == ChildExitReason::Abnormal),
        v.restart_times.len() >= v.intensity.max_restarts,
        forall|i: int| 0 <= i < v.restart_times.len() ==> #[trigger] v.restart_times[i] <= now,
        forall|i: int|
            0 <= i < v.restart_times.len() ==> !is_stale(
                #[trigger] v.restart_times[i] as int,
                now as int,
                v.intensity.window_nanos(),
            ),
    ensures
        exit_action(v, id, reason, now) == TerminationActionView::ShutdownAll,
        after_exit(v, id, reason, now).children == Seq::<ChildView>::empty(),
{
    lemma_first_position_unique(v.children, id, pos);
    if v.restart_times.len() > 0 {
        assert(v.restart_times.last() == v.restart_times[v.restart_times.len() - 1]);
    }
    assert(crate::restart::record_time(v.restart_times, now) == now);
    crate::restart::lemma_nothing_stale_nothing_dropped(
        v.restart_times,
        now as int,
        v.intensity.window_nanos(),
    );
    assert(record_spec(v.restart_times, now, v.intensity.window_nanos()).len()
        == v.restart_times.len() + 1);
}

/// No two children share an identifier.
pub open spec fn ids_unique(children: Seq<ChildView>) -> bool {
    forall|i: int, j: int|
        0 <= i < children.len() && 0 <= j < children.len() && i != j ==> children[i].id
            != children[j].id
}

/// Removing a child keeps identifiers unique.
proof fn lemma_remove_keeps_unique(children: Seq<ChildView>, p: int)
    requires
        ids_unique(children),
        0 <= p < children.len(),
    ensures
        ids_unique(children.remove(p)),
{
    let r = children.remove(p);
    assert forall|i: int, j: int| 0 <= i < r.len() && 0 <= j < r.len() && i != j implies r[i].id
        != r[j].id by {
        let a = if i < p { i } else { i + 1 };
        let b = if j < p { j } else { j + 1 };
        assert(r[i] == children[a] && r[j] == children[b]);
    }
}

/// Starting a child never makes two children share an identifier: a start
/// under an identifier that is taken is refused, and one under a fresh
/// identifier adds a child with it.
pub proof fn law_start_keeps_ids_unique(v: SupervisorView, id: Seq<char>, policy: RestartPolicy)
    requires
        ids_unique(v.children),
    ensures
        ids_unique(after_start(v, id, policy).children),
{
    if !has_child(v.children, id) {
        let c = after_start(v, id, policy).children;
        assert forall|i: int, j: int| 0 <= i < c.len() && 0 <= j < c.len() && i != j implies c[i].id
            != c[j].id by {
            if i == v.children.len() {
                assert(c[j] == v.children[j]);
            } else if j == v.children.len() {
                assert(c[i] == v.children[i]);
            } else {
                assert(c[i] == v.children[i] && c[j] == v.children[j]);
            }
        }
    }
}

/// Terminating a child and handling a child's exit keep identifiers unique.
pub proof fn law_terminate_and_exit_keep_ids_unique(
    v: SupervisorView,
    id: Seq<char>,
    reason: ChildExitReason,
    now: u128,
)
    requires
        ids_unique(v.children),
    ensures
        ids_unique(after_terminate(v, id).children),
        ids_unique(after_exit(v, id, reason, now).children),
{
    lemma_first_position(v.children, id);
    let p = first_position(v.children, id);
    if p >= 0 {
        lemma_remove_keeps_unique(v.children, p);
    }
}

/// A linked start that was admitted (the identifier was free) keeps
/// identifiers unique, and when the child's initialization fails it is
/// never added: an exit reported for it later is ignored, so a failed
/// initialization does not trigger its restart policy.
pub proof fn law_failed_initialization_is_never_restarted(
    v: SupervisorView,
    id: Seq<char>,
    policy: RestartPolicy,
    ready: bool,
    reason: ChildExitReason,
    now: u128,
)
    requires
        ids_unique(v.children),
        !has_child(v.children, id),
    ensures
        ids_unique(after_linked_start(v, id, policy, ready).children),
        !ready ==> exit_action(after_linked_start(v, id, policy, ready), id, reason, now)
            == TerminationActionView::Ignore,
        ready ==> after_linked_start(v, id, policy, ready) == after_start(v, id, policy),
{
    law_start_keeps_ids_unique(v, id, policy);
    if !ready {
        lemma_first_position(v.children, id);
    }
}

} // verus!
