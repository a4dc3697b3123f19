use std::collections::VecDeque;
use vstd::prelude::*;

use crate::window::{bounded_push, push_bounded};

verus! {

/// Points each channel keeps by default.
pub const DEFAULT_HISTORY_CAPACITY: usize = 1000;

/// Pressure channels, then acceleration axes, then angular-rate axes.
pub const PRESSURE_CHANNELS: usize = 6;
pub const ACCEL_CHANNELS: usize = 3;
pub const GYRO_CHANNELS: usize = 3;
pub const CHANNEL_COUNT: usize = 12;

/// One appended sample: the time since ingestion started and the raw ticks of
/// every channel at that time.
#[derive(Debug, Clone, Copy, PartialEq, Eq)]
pub struct TelemetryRow {
    pub time_ns: u64,
    pub pressure: [i32; 6],
    pub accel: [i32; 3],
    pub gyro: [i32; 3],
}

/// Raw value of channel `c` in `row`: channels 0 to 5 are pressures, 6 to 8
/// acceleration axes, 9 to 11 angular-rate axes.
pub open spec fn channel_value(row: TelemetryRow, c: int) -> i32 {
    if c < 6 {
        row.pressure@[c]
    } else if c < 9 {
        row.accel@[c - 6]
    } else {
        row.gyro@[c - 9]
    }
}

impl TelemetryRow {
    /// Raw value of channel `c`.
    pub fn channel(&self, c: usize) -> (r: i32)
        requires
            c < 12,
        ensures
            r == channel_value(*self, c as int),
    {
        if c < PRESSURE_CHANNELS {
            self.pressure[c]
        } else if c < PRESSURE_CHANNELS + ACCEL_CHANNELS {
            self.accel[c - PRESSURE_CHANNELS]
        } else {
            self.gyro[c - PRESSURE_CHANNELS - ACCEL_CHANNELS]
        }
    }
}

/// Bounded history of the twelve telemetry channels plus the latest rate
/// estimate. A sample enters every channel in one step, so all channels always
/// hold the same number of points with the same times.
#[derive(Debug, Clone)]
pub struct TelemetryHistory {
    rows: VecDeque<TelemetryRow>,
    capacity: usize,
    rate_mhz: u64,
}

impl TelemetryHistory {
    pub closed spec fn wf(&self) -> bool {
        &&& self.capacity > 0
        &&& self.rows@.len() <= self.capacity
    }

    /// The samples held, oldest first.
    pub closed spec fn rows(&self) -> Seq<TelemetryRow> {
        self.rows@
    }

    pub closed spec fn capacity_spec(&self) -> nat {
        self.capacity as nat
    }

    /// The rate stored with the latest sample, in millihertz.
    pub closed spec fn rate_spec(&self) -> u64 {
        self.rate_mhz
    }

    /// The points of channel `c`, oldest first, as (time, raw value).
    pub open spec fn channel_view(&self, c: int) -> Seq<(u64, i32)> {
        self.rows().map_values(|r: TelemetryRow| (r.time_ns, channel_value(r, c)))
    }

    /// An empty history whose channels keep the default number of points.
    pub fn new() -> (r: TelemetryHistory)
        ensures
            r.wf(),
            r.rows() == Seq::<TelemetryRow>::empty(),
            r.capacity_spec() == DEFAULT_HISTORY_CAPACITY,
            r.rate_spec() == 0,
    {
        TelemetryHistory::with_capacity(DEFAULT_HISTORY_CAPACITY)
    }

    /// An empty history whose channels keep `capacity` points each.
    pub fn with_capacity(capacity: usize) -> (r: TelemetryHistory)
        requires
            capacity > 0,
        ensures
            r.wf(),
            r.rows() == Seq::<TelemetryRow>::empty(),
            r.capacity_spec() == capacity,
            r.rate_spec() == 0,
    {
        TelemetryHistory { rows: VecDeque::new(), capacity, rate_mhz: 0 }
    }

    /// Appends one point to every channel, evicting each channel's oldest point
    /// when it is full, and overwrites the stored rate.
    pub fn append_sample(&mut self, row: TelemetryRow, rate_mhz: u64)
        requires
            old(self).wf(),
        ensures
            final(self).wf(),
            final(self).rows() == bounded_push(old(self).rows(), old(self).capacity_spec(), row),
            final(self).capacity_spec() == old(self).capacity_spec(),
            final(self).rate_spec() == rate_mhz,
    {
        push_bounded(&mut self.rows, self.capacity, row);
        self.rate_mhz = rate_mhz;
    }

    /// Number of points in each channel.
    pub fn len(&self) -> (r: usize)
        ensures
            r == self.rows().len(),
    {
        self.rows.len()
    }

    /// Points each channel keeps at most.
    pub fn capacity(&self) -> (r: usize)
        ensures
            r == self.capacity_spec(),
    {
        self.capacity
    }

    /// The rate stored with the latest sample, in millihertz.
    pub fn rate_millihertz(&self) -> (r: u64)
        ensures
            r == self.rate_spec(),
    {
        self.rate_mhz
    }

    /// The sample at position `i`, oldest first.
    pub fn row(&self, i: usize) -> (r: TelemetryRow)
        requires
            i < self.rows().len(),
        ensures
            r == self.rows()[i as int],
    {
        self.rows[i]
    }

    /// A copy of the points of channel `c`, oldest first, as (time, raw value).
    pub fn channel(&self, c: usize) -> (r: Vec<(u64, i32)>)
        requires
            c < 12,
        ensures
            r@ == self.channel_view(c as int),
    {
        let mut out: Vec<(u64, i32)> = Vec::with_capacity(self.rows.len());
        let mut i: usize = 0;
        while i < self.rows.len()
            invariant
                c < 12,
                i <= self.rows@.len(),
                out@ == self.rows@.subrange(0, i as int).map_values(
                    |r: TelemetryRow| (r.time_ns, channel_value(r, c as int)),
                ),
            decreases self.rows@.len() - i,
        {
            let row = self.rows[i];
            out.push((row.time_ns, row.channel(c)));
            i = i + 1;
            assert(out@ =~= self.rows@.subrange(0, i as int).map_values(
                |r: TelemetryRow| (r.time_ns, channel_value(r, c as int)),
            ));
        }
        assert(self.rows@.subrange(0, i as int) =~= self.rows@);
        out
    }
}

/// Every channel of a history holds the same number of points, with the same
/// times: a reader never sees one channel ahead of another.
pub proof fn lemma_channels_in_step(h: TelemetryHistory, a: int, b: int)
    ensures
        h.channel_view(a).len() == h.channel_view(b).len(),
        forall|i: int|
            0 <= i < h.channel_view(a).len() ==> (#[trigger] h.channel_view(a)[i]).0 == h.channel_view(
                b,
            )[i].0,
{
}

/// Appending to a history holding `capacity` points keeps each channel at
/// `capacity` points: the oldest point goes and the new one is last.
pub proof fn lemma_append_full(h: TelemetryHistory, row: TelemetryRow)
    requires
        h.wf(),
        h.rows().len() == h.capacity_spec(),
    ensures
        bounded_push(h.rows(), h.capacity_spec(), row).len() == h.capacity_spec(),
        bounded_push(h.rows(), h.capacity_spec(), row) == h.rows().subrange(
            1,
            h.capacity_spec() as int,
        ).push(row),
{
}

} // verus!
