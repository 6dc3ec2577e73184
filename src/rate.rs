use vstd::prelude::*;

use crate::error::MetricError;

verus! {

/// The window length of a rate meter made by `RateMetric::new`, in milliseconds.
pub const DEFAULT_INTERVAL_MS: u64 = 500;

/// A published rate: the events counted in the last closed window over that
/// window's length in milliseconds.
///
/// The events per second are `events / (elapsed_ms / 1000)`. Before the first
/// window closes the rate is `events == 0, elapsed_ms == 0`, which stands for
/// zero events per second.
#[derive(Clone, Copy, Debug, PartialEq, Eq, Structural)]
pub struct Rate {
    pub events: u32,
    pub elapsed_ms: u64,
}

/// What a rate meter holds, mathematically.
pub struct RateModel {
    /// Events counted in the window in progress.
    pub count: int,
    /// When the window in progress began, in milliseconds.
    pub window_start: int,
    /// The shortest window that publishes a rate, in milliseconds.
    pub interval: int,
    /// The rate of the last closed window.
    pub rate: Rate,
}

impl RateModel {
    /// The meter after an update at time `now`: a window shorter than the
    /// interval stays open and nothing changes; otherwise the window closes, its
    /// count over its length is published, and a new window begins at `now`.
    pub open spec fn updated(self, now: int) -> RateModel {
        if now - self.window_start < self.interval {
            self
        } else {
            RateModel {
                count: 0,
                window_start: now,
                interval: self.interval,
                rate: Rate { events: self.count as u32, elapsed_ms: (now - self.window_start) as u64 },
            }
        }
    }

    /// The meter after `n` more events.
    pub open spec fn counted(self, n: int) -> RateModel {
        RateModel { count: self.count + n, ..self }
    }
}

/// Evaluates how many times something occurs per second.
///
/// Time is handed in by the caller as milliseconds of a monotonic clock.
#[derive(Debug)]
pub struct RateMetric {
    count: u32,
    last_calculated_at: u64,
    average: Rate,
    measurement_interval: u64,
}

impl RateMetric {
    /// The meter's contents as a mathematical value.
    pub closed spec fn model(self) -> RateModel {
        RateModel {
            count: self.count as int,
            window_start: self.last_calculated_at as int,
            interval: self.measurement_interval as int,
            rate: self.average,
        }
    }

    /// The interval is positive, and a published rate covers a window at least
    /// as long as it, unless no window has closed yet.
    pub closed spec fn wf(self) -> bool {
        &&& self.measurement_interval > 0
        &&& self.average == (Rate { events: 0, elapsed_ms: 0 }) || self.average.elapsed_ms
            >= self.measurement_interval
    }

    /// A meter whose first window begins at `time`, with the default interval.
    pub fn new(time: u64) -> (r: Self)
        ensures
            r.wf(),
            r.model() == (RateModel {
                count: 0,
                window_start: time as int,
                interval: DEFAULT_INTERVAL_MS as int,
                rate: Rate { events: 0, elapsed_ms: 0 },
            }),
    {
        RateMetric {
            count: 0,
            last_calculated_at: time,
            average: Rate { events: 0, elapsed_ms: 0 },
            measurement_interval: DEFAULT_INTERVAL_MS,
        }
    }

    /// A meter whose first window begins at `time` and whose windows last at
    /// least `interval_ms` milliseconds; an interval of zero is refused.
    pub fn with_interval(time: u64, interval_ms: u64) -> (r: Result<Self, MetricError>)
        ensures
            interval_ms == 0 <==> r is Err,
            r matches Err(e) ==> e == MetricError::NonPositiveInterval,
            r matches Ok(m) ==> m.wf() && m.model() == (RateModel {
                count: 0,
                window_start: time as int,
                interval: interval_ms as int,
                rate: Rate { events: 0, elapsed_ms: 0 },
            }),
    {
        if interval_ms == 0 {
            Err(MetricError::NonPositiveInterval)
        } else {
            Ok(
                RateMetric {
                    count: 0,
                    last_calculated_at: time,
                    average: Rate { events: 0, elapsed_ms: 0 },
                    measurement_interval: interval_ms,
                },
            )
        }
    }

    /// Counts one event.
    pub fn increment(&mut self)
        requires
            old(self).wf(),
            old(self).model().count < u32::MAX,
        ensures
            final(self).wf(),
            final(self).model() == old(self).model().counted(1),
    {
        self.count = self.count + 1;
    }

    /// Counts `count` events.
    pub fn add(&mut self, count: u32)
        requires
            old(self).wf(),
            old(self).model().count + count <= u32::MAX,
        ensures
            final(self).wf(),
            final(self).model() == old(self).model().counted(count as int),
    {
        self.count = self.count + count;
    }

    /// Closes the window in progress if it has lasted at least the interval at
    /// time `time`, publishing its count over its length; otherwise does nothing.
    pub fn update(&mut self, time: u64)
        requires
            old(self).wf(),
            time >= old(self).model().window_start,
        ensures
            final(self).wf(),
            final(self).model() == old(self).model().updated(time as int),
    {
        let elapsed_time = time - self.last_calculated_at;
        if elapsed_time < self.measurement_interval {
            return;
        }
        self.average = Rate { events: self.count, elapsed_ms: elapsed_time };
        self.count = 0;
        self.last_calculated_at = time;
    }

    /// The rate of the last closed window.
    pub fn rate(&self) -> (r: Rate)
        ensures
            r == self.model().rate,
    {
        self.average
    }

    /// The events counted in the window in progress.
    pub fn count(&self) -> (r: u32)
        ensures
            r == self.model().count,
    {
        self.count
    }

    /// When the window in progress began, in milliseconds.
    pub fn window_start(&self) -> (r: u64)
        ensures
            r == self.model().window_start,
    {
        self.last_calculated_at
    }
}

/// An update repeated at the same time changes nothing more: the window it
/// opened has lasted no time, which is shorter than the positive interval, so
/// no rate over an empty window is ever published.
pub proof fn lemma_update_idempotent(m: RateModel, now: int)
    requires
        m.interval > 0,
        0 <= m.window_start <= now <= u64::MAX,
    ensures
        m.updated(now).updated(now) == m.updated(now),
        m.updated(now).rate == m.rate || m.updated(now).rate.elapsed_ms >= m.interval,
{
}

} // verus!
