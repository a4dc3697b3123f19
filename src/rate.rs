use std::collections::VecDeque;
use vstd::prelude::*;

use crate::window::{bounded_push, push_bounded};

verus! {

/// Number of inter-arrival intervals the estimator averages by default.
pub const DEFAULT_RATE_WINDOW: usize = 50;

/// Nanoseconds in one second, times a thousand: rates are in millihertz.
pub const NANOS_MILLIHERTZ: u128 = 1_000_000_000_000;

/// Sum of the intervals in `s`.
pub open spec fn interval_sum(s: Seq<u64>) -> int
    decreases s.len(),
{
    if s.len() == 0 {
        0
    } else {
        interval_sum(s.drop_last()) + s.last()
    }
}

/// Rate in millihertz implied by a window of intervals in nanoseconds: the
/// number of intervals over their total, rounded down and capped at the
/// largest `u64`; zero for an empty window, the cap for a window of zero total.
pub open spec fn window_rate(s: Seq<u64>) -> int {
    if s.len() == 0 {
        0
    } else if interval_sum(s) == 0 {
        u64::MAX as int
    } else {
        let q = (s.len() as int) * 1_000_000_000_000 / interval_sum(s);
        if q > u64::MAX {
            u64::MAX as int
        } else {
            q
        }
    }
}

/// Inter-arrival time: from `last` to `now`, or zero when `now` is earlier.
pub open spec fn arrival_gap(last: u64, now: u64) -> u64 {
    if now >= last {
        (now - last) as u64
    } else {
        0
    }
}

proof fn lemma_sum_push(s: Seq<u64>, x: u64)
    ensures
        interval_sum(s.push(x)) == interval_sum(s) + x,
{
    assert(s.push(x).drop_last() =~= s);
}

proof fn lemma_sum_drop_first(s: Seq<u64>)
    requires
        s.len() > 0,
    ensures
        interval_sum(s) == s[0] + interval_sum(s.drop_first()),
    decreases s.len(),
{
    if s.len() > 1 {
        lemma_sum_drop_first(s.drop_last());
        assert(s.drop_last().drop_first() =~= s.drop_first().drop_last());
        assert(s.drop_first().last() == s.last());
    } else {
        assert(s.drop_last() =~= Seq::<u64>::empty());
        assert(s.drop_first() =~= Seq::<u64>::empty());
    }
}

proof fn lemma_sum_bounds(s: Seq<u64>)
    ensures
        0 <= interval_sum(s) <= s.len() * (u64::MAX as int),
    decreases s.len(),
{
    if s.len() > 0 {
        lemma_sum_bounds(s.drop_last());
    }
}

/// A full window of equal intervals that takes one more interval of the same
/// length stays as it was, so the rate it gives does not change.
pub proof fn lemma_steady_window(s: Seq<u64>, capacity: nat, d: u64)
    requires
        capacity > 0,
        s.len() == capacity,
        forall|i: int| 0 <= i < s.len() ==> #[trigger] s[i] == d,
    ensures
        bounded_push(s, capacity, d) == s,
        window_rate(bounded_push(s, capacity, d)) == window_rate(s),
{
    assert(bounded_push(s, capacity, d) =~= s);
}

/// Sliding-window estimate of the frame arrival rate: the last `capacity`
/// inter-arrival intervals, in nanoseconds.
pub struct RateEstimator {
    intervals: VecDeque<u64>,
    total: u128,
    capacity: usize,
    last_arrival_ns: u64,
}

impl RateEstimator {
    pub closed spec fn wf(&self) -> bool {
        &&& self.capacity > 0
        &&& self.intervals@.len() <= self.capacity
        &&& self.total == interval_sum(self.intervals@)
    }

    /// The intervals in the window, oldest first.
    pub closed spec fn window(&self) -> Seq<u64> {
        self.intervals@
    }

    pub closed spec fn capacity_spec(&self) -> nat {
        self.capacity as nat
    }

    /// Time of the latest arrival, in nanoseconds.
    pub closed spec fn last_arrival(&self) -> u64 {
        self.last_arrival_ns
    }

    /// An estimator with an empty window of `capacity` intervals, whose first
    /// interval is measured from `start_ns`.
    pub fn new(capacity: usize, start_ns: u64) -> (r: RateEstimator)
        requires
            capacity > 0,
        ensures
            r.wf(),
            r.window() == Seq::<u64>::empty(),
            r.capacity_spec() == capacity,
            r.last_arrival() == start_ns,
    {
        RateEstimator {
            intervals: VecDeque::with_capacity(capacity),
            total: 0,
            capacity,
            last_arrival_ns: start_ns,
        }
    }

    /// Records a frame arriving at `now_ns`: the time since the previous
    /// arrival enters the window, evicting the oldest interval when the window
    /// is full.
    pub fn record_arrival(&mut self, now_ns: u64)
        requires
            old(self).wf(),
        ensures
            final(self).wf(),
            final(self).window() == bounded_push(
                old(self).window(),
                old(self).capacity_spec(),
                arrival_gap(old(self).last_arrival(), now_ns),
            ),
            final(self).capacity_spec() == old(self).capacity_spec(),
            final(self).last_arrival() == now_ns,
    {
        let dt: u64 = if now_ns >= self.last_arrival_ns {
            now_ns - self.last_arrival_ns
        } else {
            0
        };
        self.last_arrival_ns = now_ns;
        let ghost before = self.intervals@;
        let evicted = push_bounded(&mut self.intervals, self.capacity, dt);
        proof {
            lemma_sum_bounds(before);
            if before.len() == self.capacity {
                lemma_sum_drop_first(before);
                lemma_sum_bounds(before.drop_first());
                lemma_sum_push(before.drop_first(), dt);
            } else {
                lemma_sum_push(before, dt);
            }
            lemma_sum_bounds(self.intervals@);
            assert(self.intervals@.len() * (u64::MAX as int) < u128::MAX) by (nonlinear_arith)
                requires
                    self.intervals@.len() <= usize::MAX,
            ;
        }
        match evicted {
            Some(old_dt) => {
                self.total = self.total - old_dt as u128 + dt as u128;
            },
            None => {
                self.total = self.total + dt as u128;
            },
        }
    }

    /// Number of intervals in the window.
    pub fn len(&self) -> (r: usize)
        ensures
            r == self.window().len(),
    {
        self.intervals.len()
    }

    /// Sum of the intervals in the window, in nanoseconds.
    pub fn total_nanos(&self) -> (r: u128)
        requires
            self.wf(),
        ensures
            r == interval_sum(self.window()),
    {
        self.total
    }

    /// The estimated rate in millihertz: the number of intervals in the window
    /// over their total duration.
    pub fn rate_millihertz(&self) -> (r: u64)
        requires
            self.wf(),
        ensures
            r == window_rate(self.window()),
    {
        let n = self.intervals.len();
        if n == 0 {
            return 0;
        }
        if self.total == 0 {
            return u64::MAX;
        }
        proof {
            assert(n * 1_000_000_000_000 <= u64::MAX * 1_000_000_000_000) by (nonlinear_arith)
                requires
                    n <= u64::MAX,
            ;
        }
        let q = (n as u128) * NANOS_MILLIHERTZ / self.total;
        if q > u64::MAX as u128 {
            u64::MAX
        } else {
            q as u64
        }
    }
}

} // verus!
