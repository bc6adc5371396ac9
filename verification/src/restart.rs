//! Restart policies, strategies and intensity limits.

use std::collections::VecDeque;
use vstd::prelude::*;

use crate::clock::{instant_now, nanos_since};

verus! {

/// Restart strategy for supervisor children.
#[derive(Debug, Clone, Copy, PartialEq, Eq, Structural)]
pub enum RestartStrategy {
    /// Restart only the failed child (`:one_for_one`).
    OneForOne,
    /// Restart all children if any child fails (`:one_for_all`).
    OneForAll,
    /// Restart the failed child and all children started after it (`:rest_for_one`).
    RestForOne,
}

impl Default for RestartStrategy {
    fn default() -> (s: Self)
        ensures
            s == RestartStrategy::OneForOne,
    {
        RestartStrategy::OneForOne
    }
}

impl RestartStrategy {
    /// The strategy's name, as its `Debug` form writes it.
    pub open spec fn name_spec(self) -> Seq<char> {
        match self {
            RestartStrategy::OneForOne => "OneForOne"@,
            RestartStrategy::OneForAll => "OneForAll"@,
            RestartStrategy::RestForOne => "RestForOne"@,
        }
    }

    /// The strategy's name (`"OneForOne"`, `"OneForAll"` or `"RestForOne"`).
    pub fn name(&self) -> (r: String)
        ensures
            r@ == self.name_spec(),
    {
        match self {
            RestartStrategy::OneForOne => "OneForOne".to_owned(),
            RestartStrategy::OneForAll => "OneForAll".to_owned(),
            RestartStrategy::RestForOne => "RestForOne".to_owned(),
        }
    }
}

/// When to restart a child.
#[derive(Debug, Clone, Copy, PartialEq, Eq, Structural)]
pub enum RestartPolicy {
    /// Always restart when the child terminates (`:permanent`).
    Permanent,
    /// Never restart (`:temporary`).
    Temporary,
    /// Restart only after an abnormal termination (`:transient`).
    Transient,
}

impl Default for RestartPolicy {
    fn default() -> (p: Self)
        ensures
            p == RestartPolicy::Permanent,
    {
        RestartPolicy::Permanent
    }
}

/// Restart intensity limits: at most `max_restarts` restarts within a
/// sliding window of `within_seconds` seconds.
#[derive(Debug, Clone, Copy)]
pub struct RestartIntensity {
    /// Maximum number of restarts allowed.
    pub max_restarts: usize,
    /// Within this time period (in seconds).
    pub within_seconds: u64,
}

impl RestartIntensity {
    /// Creates a restart intensity from its two limits.
    pub fn new(max_restarts: usize, within_seconds: u64) -> (r: Self)
        ensures
            r.max_restarts == max_restarts,
            r.within_seconds == within_seconds,
    {
        RestartIntensity { max_restarts, within_seconds }
    }

    /// The length of the window in nanoseconds.
    pub open spec fn window_nanos(self) -> int {
        self.within_seconds * 1_000_000_000
    }
}

impl Default for RestartIntensity {
    fn default() -> (r: Self)
        ensures
            r.max_restarts == 3,
            r.within_seconds == 5,
    {
        RestartIntensity { max_restarts: 3, within_seconds: 5 }
    }
}

/// A restart recorded at time `t` has left the window that ends at `now`.
pub open spec fn is_stale(t: int, now: int, window: int) -> bool {
    t < now - window
}

/// The queue of restart times after the restarts at its front that have left
/// the window ending at `now` are dropped: dropping stops at the first
/// restart that is still inside the window.
pub open spec fn drop_stale_prefix(times: Seq<u128>, now: int, window: int) -> Seq<u128>
    decreases times.len(),
{
    if times.len() > 0 && is_stale(times[0] as int, now, window) {
        drop_stale_prefix(times.drop_first(), now, window)
    } else {
        times
    }
}

/// The time at which a restart reported at `now` is recorded: `now`, or the
/// latest recorded restart if that lies later, so that the queue stays in
/// time order.
pub open spec fn record_time(times: Seq<u128>, now: u128) -> u128 {
    if times.len() > 0 && times.last() > now {
        times.last()
    } else {
        now
    }
}

/// The queue of restart times after a restart is recorded at `now`.
pub open spec fn record_spec(times: Seq<u128>, now: u128, window: int) -> Seq<u128> {
    let at = record_time(times, now);
    drop_stale_prefix(times, at as int, window).push(at)
}

/// When no recorded restart has left the window, none is dropped.
pub proof fn lemma_nothing_stale_nothing_dropped(times: Seq<u128>, now: int, window: int)
    requires
        forall|i: int| 0 <= i < times.len() ==> !is_stale(#[trigger] times[i] as int, now, window),
    ensures
        drop_stale_prefix(times, now, window) == times,
{
    if times.len() > 0 {
        assert(!is_stale(times[0] as int, now, window));
    }
}

/// The times are in non-decreasing order.
pub open spec fn is_sorted(times: Seq<u128>) -> bool {
    forall|i: int, j: int| 0 <= i <= j < times.len() ==> times[i] <= times[j]
}

/// The queue after restarts are recorded at each of `events`, in order.
pub open spec fn replay(times: Seq<u128>, events: Seq<u128>, window: int) -> Seq<u128>
    decreases events.len(),
{
    if events.len() == 0 {
        times
    } else {
        replay(record_spec(times, events[0], window), events.drop_first(), window)
    }
}

/// On a queue in time order, dropping the stale prefix drops exactly the
/// stale restarts.
proof fn lemma_drop_sorted(times: Seq<u128>, now: int, window: int)
    requires
        is_sorted(times),
    ensures
        is_sorted(drop_stale_prefix(times, now, window)),
        forall|i: int|
            0 <= i < drop_stale_prefix(times, now, window).len() ==> !is_stale(
                #[trigger] drop_stale_prefix(times, now, window)[i] as int,
                now,
                window,
            ),
        forall|j: int|
            0 <= j < times.len() && !is_stale(#[trigger] times[j] as int, now, window)
                ==> drop_stale_prefix(times, now, window).contains(times[j]),
        forall|i: int|
            0 <= i < drop_stale_prefix(times, now, window).len() ==> times.contains(
                #[trigger] drop_stale_prefix(times, now, window)[i],
            ),
    decreases times.len(),
{
    if times.len() > 0 && is_stale(times[0] as int, now, window) {
        let rest = times.drop_first();
        assert(is_sorted(rest)) by {
            assert forall|i: int, j: int| 0 <= i <= j < rest.len() implies rest[i] <= rest[j] by {
                assert(rest[i] == times[i + 1] && rest[j] == times[j + 1]);
            }
        }
        lemma_drop_sorted(rest, now, window);
        let d = drop_stale_prefix(rest, now, window);
        assert forall|j: int| 0 <= j < times.len() && !is_stale(#[trigger] times[j] as int, now, window)
            implies d.contains(times[j]) by {
            assert(j > 0);
            assert(rest[j - 1] == times[j]);
        }
        assert forall|i: int| 0 <= i < d.len() implies times.contains(#[trigger] d[i]) by {
            assert(rest.contains(d[i]));
            let k = choose|k: int| 0 <= k < rest.len() && rest[k] == d[i];
            assert(times[k + 1] == d[i]);
        }
    } else if times.len() > 0 {
        assert forall|i: int| 0 <= i < times.len() implies !is_stale(
            #[trigger] times[i] as int,
            now,
            window,
        ) by {
            assert(times[0] <= times[i]);
        }
        assert forall|j: int| 0 <= j < times.len() && !is_stale(#[trigger] times[j] as int, now, window)
            implies times.contains(times[j]) by {}
    }
}

/// The sliding window: on a queue in time order, a restart reported at `now`
/// is recorded at `now` itself when no recorded restart lies later (and at
/// the latest one otherwise), never earlier than any recorded restart;
/// recording it keeps exactly the restarts that lie within the window ending
/// at that time, still in time order, and adds that time at the back.
pub proof fn law_window_keeps_exactly_the_recent_restarts(times: Seq<u128>, now: u128, window: int)
    requires
        is_sorted(times),
    ensures
        ({
            let at = record_time(times, now);
            let r = record_spec(times, now, window);
            &&& now <= at
            &&& (forall|i: int| 0 <= i < times.len() ==> #[trigger] times[i] <= at)
            &&& (forall|i: int| 0 <= i < times.len() ==> #[trigger] times[i] <= now) ==> at == now
            &&& is_sorted(r)
            &&& r.last() == at
            &&& forall|i: int|
                0 <= i < r.len() - 1 ==> !is_stale(#[trigger] r[i] as int, at as int, window)
            &&& forall|j: int|
                0 <= j < times.len() && !is_stale(#[trigger] times[j] as int, at as int, window)
                    ==> r.contains(times[j])
            &&& forall|i: int| 0 <= i < r.len() - 1 ==> times.contains(#[trigger] r[i])
        }),
{
    let now0 = now;
    let now = record_time(times, now0);
    assert forall|i: int| 0 <= i < times.len() implies #[trigger] times[i] <= now by {
        assert(times[i] <= times[times.len() - 1]);
    }
    if forall|i: int| 0 <= i < times.len() ==> #[trigger] times[i] <= now0 {
        if times.len() > 0 {
            assert(times[times.len() - 1] <= now0);
        }
    }
    lemma_drop_sorted(times, now as int, window);
    let d = drop_stale_prefix(times, now as int, window);
    let r = record_spec(times, now0, window);
    assert(r == d.push(now));
    assert forall|i: int, j: int| 0 <= i <= j < r.len() implies r[i] <= r[j] by {
        if j == r.len() - 1 {
            if i < j {
                assert(times.contains(d[i]));
            }
        } else {
            assert(r[i] == d[i] && r[j] == d[j]);
        }
    }
    assert forall|j: int| 0 <= j < times.len() && !is_stale(#[trigger] times[j] as int, now as int, window)
        implies r.contains(times[j]) by {
        assert(d.contains(times[j]));
        let k = choose|k: int| 0 <= k < d.len() && d[k] == times[j];
        assert(r[k] == times[j]);
    }
    assert forall|i: int| 0 <= i < r.len() - 1 implies !is_stale(#[trigger] r[i] as int, now as int, window) by {
        assert(r[i] == d[i]);
    }
    assert forall|i: int| 0 <= i < r.len() - 1 implies times.contains(#[trigger] r[i]) by {
        assert(r[i] == d[i]);
    }
}

/// Replaying restarts that all lie within one window, in time order, after
/// a queue of earlier restarts of that same window drops nothing.
proof fn lemma_replay_within_window(prefix: Seq<u128>, events: Seq<u128>, window: int)
    requires
        is_sorted(prefix + events),
        prefix.len() + events.len() > 0,
        (prefix + events).last() - (prefix + events)[0] <= window,
    ensures
        replay(prefix, events, window) == prefix + events,
    decreases events.len(),
{
    let all = prefix + events;
    if events.len() > 0 {
        let now = events[0];
        assert(all[prefix.len() as int] == now);
        assert forall|i: int| 0 <= i < prefix.len() implies !is_stale(
            #[trigger] prefix[i] as int,
            now as int,
            window,
        ) by {
            assert(all[i] == prefix[i]);
            assert(all[0] <= all[i]);
            assert(now <= all.last());
        }
        lemma_nothing_stale_nothing_dropped(prefix, now as int, window);
        if prefix.len() > 0 {
            assert(all[prefix.len() - 1] == prefix.last());
            assert(all[prefix.len() - 1] <= all[prefix.len() as int]);
        }
        assert(record_time(prefix, now) == now);
        let next = prefix.push(now);
        assert(next + events.drop_first() =~= all);
        lemma_replay_within_window(next, events.drop_first(), window);
    } else {
        assert(prefix + events =~= prefix);
    }
}

/// Restart intensity: when restarts are recorded on an empty tracker at
/// times that all lie within one window, in time order, none is dropped, so
/// the restart recorded as number `k + 1` leaves `k + 1` restarts in the
/// queue and exceeds the limit exactly when `k + 1 > max_restarts`.
pub proof fn law_restarts_within_one_window_accumulate(events: Seq<u128>, window: int, k: int)
    requires
        is_sorted(events),
        events.len() > 0,
        events.last() - events[0] <= window,
        0 <= k < events.len(),
    ensures
        replay(Seq::empty(), events.take(k), window) == events.take(k),
        record_spec(events.take(k), events[k], window) == events.take(k + 1),
        record_spec(events.take(k), events[k], window).len() == k + 1,
{
    let part = events.take(k + 1);
    assert(is_sorted(part));
    assert(part.last() == events[k]);
    assert(events[k] <= events.last());
    if k > 0 {
        let pre = events.take(k);
        assert(Seq::<u128>::empty() + pre =~= pre);
        assert(pre.last() <= events.last());
        lemma_replay_within_window(Seq::empty(), pre, window);
    }
    assert(replay(Seq::empty(), events.take(k), window) == events.take(k)) by {
        if k == 0 {
            assert(events.take(0) =~= Seq::<u128>::empty());
        }
    }
    let pre = events.take(k);
    assert(Seq::<u128>::empty() + part =~= part);
    assert forall|i: int| 0 <= i < pre.len() implies !is_stale(
        #[trigger] pre[i] as int,
        events[k] as int,
        window,
    ) by {
        assert(events[0] <= pre[i]);
    }
    lemma_nothing_stale_nothing_dropped(pre, events[k] as int, window);
    if k > 0 {
        assert(pre.last() == events[k - 1]);
        assert(events[k - 1] <= events[k]);
    }
    assert(record_time(pre, events[k]) == events[k]);
    assert(pre.push(events[k]) =~= part);
}

/// Tracks restart history for intensity monitoring using a sliding time window.
///
/// Times are nanoseconds measured from the tracker's own origin.
pub struct RestartTracker {
    intensity: RestartIntensity,
    restart_times: VecDeque<u128>,
    origin: std::time::Instant,
}

impl RestartTracker {
    /// The recorded restarts are kept in time order.
    #[verifier::type_invariant]
    pub closed spec fn in_time_order(&self) -> bool {
        is_sorted(self.restart_times@)
    }

    /// A tracker's recorded restarts are in time order (what its type
    /// invariant gives, read over [`RestartTracker::times`]).
    pub proof fn lemma_times_in_order(&self)
        requires
            self.in_time_order(),
        ensures
            is_sorted(self.times()),
    {
    }

    /// The limits this tracker enforces.
    pub closed spec fn intensity_spec(&self) -> RestartIntensity {
        self.intensity
    }

    /// The recorded restart times, oldest first.
    pub closed spec fn times(&self) -> Seq<u128> {
        self.restart_times@
    }

    /// Creates a tracker with no recorded restarts.
    pub fn new(intensity: RestartIntensity) -> (t: Self)
        ensures
            t.intensity_spec() == intensity,
            t.times() == Seq::<u128>::empty(),
            is_sorted(t.times()),
    {
        RestartTracker { intensity, restart_times: VecDeque::new(), origin: instant_now() }
    }

    /// The limits this tracker enforces.
    pub fn intensity(&self) -> (r: RestartIntensity)
        ensures
            r == self.intensity_spec(),
    {
        self.intensity
    }

    /// Records a restart that happened at `now` (nanoseconds since the
    /// tracker's origin) and returns true if the intensity limit is exceeded.
    ///
    /// The restart is recorded at `now`, or at the latest recorded restart
    /// if the clock reads earlier than that (it never does: it is monotonic).
    /// Restarts at the front of the queue that fall before that time minus
    /// the window are dropped first; the limit is exceeded when more than
    /// `max_restarts` restarts remain. The queue stays in time order.
    pub fn record_restart_at(&mut self, now: u128) -> (exceeded: bool)
        ensures
            is_sorted(old(self).times()),
            is_sorted(final(self).times()),
            final(self).intensity_spec() == old(self).intensity_spec(),
            final(self).times() == record_spec(
                old(self).times(),
                now,
                old(self).intensity_spec().window_nanos(),
            ),
            exceeded == (final(self).times().len() > old(self).intensity_spec().max_restarts),
    {
        proof {
            use_type_invariant(&*self);
            law_window_keeps_exactly_the_recent_restarts(
                self.restart_times@,
                now,
                self.intensity.window_nanos(),
            );
        }
        let mut q: VecDeque<u128> = VecDeque::new();
        std::mem::swap(&mut q, &mut self.restart_times);
        let len = q.len();
        let at = if len > 0 && q[len - 1] > now {
            q[len - 1]
        } else {
            now
        };
        let window: u128 = (self.intensity.within_seconds as u128) * 1_000_000_000u128;
        let ghost w = self.intensity.window_nanos();
        let ghost start = q@;
        let ghost limits = self.intensity;
        assert(at == record_time(start, now));
        while q.len() > 0
            invariant_except_break
                window == w,
                self.intensity == limits,
                is_sorted(q@),
                forall|i: int| 0 <= i < q@.len() ==> #[trigger] q@[i] <= at,
                drop_stale_prefix(q@, at as int, w) == drop_stale_prefix(
                    start,
                    at as int,
                    w,
                ),
            ensures
                window == w,
                self.intensity == limits,
                is_sorted(q@),
                forall|i: int| 0 <= i < q@.len() ==> #[trigger] q@[i] <= at,
                q@ == drop_stale_prefix(start, at as int, w),
            decreases q@.len(),
        {
            let t = q[0];
            if t < at && at - t > window {
                let ghost before = q@;
                q.pop_front();
                assert(q@ == before.drop_first());
                assert forall|i: int, j: int| 0 <= i <= j < q@.len() implies
                    q@[i] <= q@[j] by {
                    assert(q@[i] == before[i + 1]);
                    assert(q@[j] == before[j + 1]);
                }
                assert forall|i: int| 0 <= i < q@.len() implies
                    #[trigger] q@[i] <= at by {
                    assert(q@[i] == before[i + 1]);
                }
            } else {
                break;
            }
        }
        let ghost kept = q@;
        q.push_back(at);
        assert forall|i: int, j: int| 0 <= i <= j < q@.len() implies
            q@[i] <= q@[j] by {
            if j < kept.len() {
                assert(q@[i] == kept[i] && q@[j] == kept[j]);
            } else if i < kept.len() {
                assert(q@[i] == kept[i]);
            }
        }
        let exceeded = q.len() > self.intensity.max_restarts;
        self.restart_times = q;
        exceeded
    }

    /// Reads the clock: nanoseconds since the tracker's origin.
    pub fn clock_nanos(&self) -> u128 {
        nanos_since(&self.origin)
    }

    /// Records a restart at the current time and returns true if the
    /// intensity limit is exceeded.
    pub fn record_restart(&mut self) -> (exceeded: bool)
        ensures
            is_sorted(old(self).times()),
            is_sorted(final(self).times()),
            final(self).intensity_spec() == old(self).intensity_spec(),
            exists|now: u128|
                final(self).times() == record_spec(
                    old(self).times(),
                    now,
                    old(self).intensity_spec().window_nanos(),
                ),
            exceeded == (final(self).times().len() > old(self).intensity_spec().max_restarts),
    {
        let now = self.clock_nanos();
        self.record_restart_at(now)
    }

    /// Forgets every recorded restart.
    pub fn reset(&mut self)
        ensures
            final(self).intensity_spec() == old(self).intensity_spec(),
            final(self).times() == Seq::<u128>::empty(),
            is_sorted(final(self).times()),
    {
        self.restart_times = VecDeque::new();
    }
}

} // verus!
