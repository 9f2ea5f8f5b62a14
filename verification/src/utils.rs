//! Utilities: spans of time, performance counters, validation of request
//! parameters, and text formatting.

use vstd::prelude::*;

pub mod validation;
pub mod format;
pub mod logging;

verus! {

/// Nanoseconds in the longest span: `u64::MAX` seconds and 999 999 999
/// nanoseconds.
pub open spec fn max_span_nanos() -> nat {
    18446744073709551615 * 1_000_000_000 + 999_999_999
}

/// A span of time with nanosecond resolution, as long as the longest
/// `std::time::Duration`.
#[derive(Debug, Clone, Copy)]
pub struct TimeSpan {
    nanos: u128,
}

impl TimeSpan {
    /// Well-formed: no longer than the longest span.
    pub closed spec fn wf(&self) -> bool {
        self.nanos <= max_span_nanos()
    }

    /// Length in nanoseconds.
    pub closed spec fn nanos(&self) -> nat {
        self.nanos as nat
    }

    /// A span of whole seconds and extra nanoseconds.
    pub fn new(secs: u64, nanos: u32) -> (r: Self)
        requires
            secs as nat * 1_000_000_000 + nanos <= max_span_nanos(),
        ensures
            r.wf(),
            r.nanos() == secs as nat * 1_000_000_000 + nanos,
    {
        TimeSpan { nanos: (secs as u128) * 1_000_000_000 + nanos as u128 }
    }

    /// A span of nanoseconds.
    pub fn from_nanos(nanos: u128) -> (r: Self)
        requires
            nanos <= max_span_nanos(),
        ensures
            r.wf(),
            r.nanos() == nanos,
    {
        TimeSpan { nanos }
    }

    /// A span of microseconds.
    pub fn from_micros(micros: u64) -> (r: Self)
        ensures
            r.wf(),
            r.nanos() == micros as nat * 1000,
    {
        TimeSpan { nanos: (micros as u128) * 1000 }
    }

    /// A span of milliseconds.
    pub fn from_millis(millis: u64) -> (r: Self)
        ensures
            r.wf(),
            r.nanos() == millis as nat * 1_000_000,
    {
        TimeSpan { nanos: (millis as u128) * 1_000_000 }
    }

    /// A span of seconds.
    pub fn from_secs(secs: u64) -> (r: Self)
        ensures
            r.wf(),
            r.nanos() == secs as nat * 1_000_000_000,
    {
        TimeSpan { nanos: (secs as u128) * 1_000_000_000 }
    }

    /// The empty span.
    pub fn zero() -> (r: Self)
        ensures
            r.wf(),
            r.nanos() == 0,
    {
        TimeSpan { nanos: 0 }
    }

    /// Length in nanoseconds.
    pub fn as_nanos(&self) -> (n: u128)
        ensures
            n == self.nanos(),
    {
        self.nanos
    }

    /// Whole milliseconds.
    pub fn as_millis(&self) -> (n: u128)
        ensures
            n == self.nanos() / 1_000_000,
    {
        self.nanos / 1_000_000
    }

    /// Whole seconds.
    pub fn as_secs(&self) -> (n: u64)
        requires
            self.wf(),
        ensures
            n == self.nanos() / 1_000_000_000,
    {
        (self.nanos / 1_000_000_000) as u64
    }

    /// Nanoseconds past the whole seconds.
    pub fn subsec_nanos(&self) -> (n: u32)
        ensures
            n == self.nanos() % 1_000_000_000,
    {
        (self.nanos % 1_000_000_000) as u32
    }

    /// Whether the span is empty.
    pub fn is_zero(&self) -> (b: bool)
        ensures
            b == (self.nanos() == 0),
    {
        self.nanos == 0
    }

    /// The sum of two spans, which must not exceed the longest span.
    pub fn add(&self, other: &TimeSpan) -> (r: TimeSpan)
        requires
            self.nanos() + other.nanos() <= max_span_nanos(),
        ensures
            r.wf(),
            r.nanos() == self.nanos() + other.nanos(),
    {
        TimeSpan { nanos: self.nanos + other.nanos }
    }

    /// The span divided by `n`, rounded down.
    pub fn div(&self, n: u32) -> (r: TimeSpan)
        requires
            n > 0,
            self.wf(),
        ensures
            r.wf(),
            r.nanos() == self.nanos() / (n as nat),
    {
        TimeSpan { nanos: self.nanos / (n as u128) }
    }
}

/// Counters and timings of operations.
#[derive(Debug, Clone)]
pub struct PerformanceMetrics {
    pub total_requests: u64,
    pub successful_requests: u64,
    pub failed_requests: u64,
    pub total_duration: TimeSpan,
    pub min_duration: Option<TimeSpan>,
    pub max_duration: Option<TimeSpan>,
    pub avg_duration: TimeSpan,
}

/// The smaller of a recorded minimum and a new span.
pub open spec fn min_after(m: Option<TimeSpan>, d: TimeSpan) -> nat {
    match m {
        Some(x) => if x.nanos() <= d.nanos() {
            x.nanos()
        } else {
            d.nanos()
        },
        None => d.nanos(),
    }
}

/// The larger of a recorded maximum and a new span.
pub open spec fn max_after(m: Option<TimeSpan>, d: TimeSpan) -> nat {
    match m {
        Some(x) => if x.nanos() >= d.nanos() {
            x.nanos()
        } else {
            d.nanos()
        },
        None => d.nanos(),
    }
}

/// The minimum after a new span is the smallest span seen, and the maximum
/// the largest: neither is past the new span or the one recorded before,
/// and each is one of the two.
pub proof fn lemma_extremes_after(m: Option<TimeSpan>, d: TimeSpan)
    ensures
        min_after(m, d) <= d.nanos(),
        max_after(m, d) >= d.nanos(),
        m matches Some(x) ==> min_after(m, d) <= x.nanos() && max_after(m, d) >= x.nanos(),
        min_after(m, d) == d.nanos() || (m matches Some(x) && min_after(m, d) == x.nanos()),
        max_after(m, d) == d.nanos() || (m matches Some(x) && max_after(m, d) == x.nanos()),
{
}

/// The divisor of the average: the request count cut to 32 bits.
pub open spec fn count_divisor(total_requests: nat) -> nat {
    total_requests % 4294967296
}

impl PerformanceMetrics {
    /// Well-formed: every recorded span is well-formed.
    pub open spec fn wf(&self) -> bool {
        &&& self.total_duration.wf()
        &&& self.avg_duration.wf()
        &&& (self.min_duration matches Some(d) ==> d.wf())
        &&& (self.max_duration matches Some(d) ==> d.wf())
    }

    /// No operation recorded.
    pub fn new() -> (m: Self)
        ensures
            m.wf(),
            m.total_requests == 0 && m.successful_requests == 0 && m.failed_requests == 0,
            m.total_duration.nanos() == 0 && m.avg_duration.nanos() == 0,
            m.min_duration is None && m.max_duration is None,
    {
        PerformanceMetrics {
            total_requests: 0,
            successful_requests: 0,
            failed_requests: 0,
            total_duration: TimeSpan::zero(),
            min_duration: None,
            max_duration: None,
            avg_duration: TimeSpan::zero(),
        }
    }

    /// Records a successful operation that took `duration`: counts it, adds
    /// its time, updates minimum, maximum and average.
    pub fn record_success(&mut self, duration: TimeSpan)
        requires
            old(self).wf(),
            duration.wf(),
            old(self).total_requests < u64::MAX,
            old(self).successful_requests < u64::MAX,
            old(self).total_duration.nanos() + duration.nanos() <= max_span_nanos(),
            count_divisor((old(self).total_requests + 1) as nat) != 0,
        ensures
            final(self).wf(),
            final(self).total_requests == old(self).total_requests + 1,
            final(self).successful_requests == old(self).successful_requests + 1,
            final(self).failed_requests == old(self).failed_requests,
            old(self).total_requests == old(self).successful_requests + old(self).failed_requests
                ==> final(self).total_requests == final(self).successful_requests
                + final(self).failed_requests,
            final(self).total_duration.nanos() == old(self).total_duration.nanos()
                + duration.nanos(),
            final(self).min_duration matches Some(d) && d.nanos() == min_after(
                old(self).min_duration,
                duration,
            ),
            final(self).max_duration matches Some(d) && d.nanos() == max_after(
                old(self).max_duration,
                duration,
            ),
            final(self).min_duration is Some && final(self).max_duration is Some,
            final(self).min_duration->0.nanos() <= duration.nanos(),
            final(self).max_duration->0.nanos() >= duration.nanos(),
            old(self).min_duration is Some ==> final(self).min_duration->0.nanos() <= old(
                self,
            ).min_duration->0.nanos(),
            old(self).max_duration is Some ==> final(self).max_duration->0.nanos() >= old(
                self,
            ).max_duration->0.nanos(),
            final(self).min_duration->0 == duration || (old(self).min_duration is Some
                && final(self).min_duration == old(self).min_duration),
            final(self).max_duration->0 == duration || (old(self).max_duration is Some
                && final(self).max_duration == old(self).max_duration),
            final(self).avg_duration.nanos() == final(self).total_duration.nanos() / count_divisor(
                final(self).total_requests as nat,
            ),
    {
        self.total_requests = self.total_requests + 1;
        self.successful_requests = self.successful_requests + 1;
        self.total_duration = self.total_duration.add(&duration);
        self.min_duration = match self.min_duration {
            Some(m) => if m.as_nanos() <= duration.as_nanos() {
                Some(m)
            } else {
                Some(duration)
            },
            None => Some(duration),
        };
        self.max_duration = match self.max_duration {
            Some(m) => if m.as_nanos() >= duration.as_nanos() {
                Some(m)
            } else {
                Some(duration)
            },
            None => Some(duration),
        };
        let divisor = (self.total_requests % 4294967296) as u32;
        self.avg_duration = self.total_duration.div(divisor);
    }

    /// Records a failed operation that took `duration`: counts it, adds its
    /// time and updates the average.
    pub fn record_failure(&mut self, duration: TimeSpan)
        requires
            old(self).wf(),
            duration.wf(),
            old(self).total_requests < u64::MAX,
            old(self).failed_requests < u64::MAX,
            old(self).total_duration.nanos() + duration.nanos() <= max_span_nanos(),
            count_divisor((old(self).total_requests + 1) as nat) != 0,
        ensures
            final(self).wf(),
            final(self).total_requests == old(self).total_requests + 1,
            final(self).failed_requests == old(self).failed_requests + 1,
            final(self).successful_requests == old(self).successful_requests,
            old(self).total_requests == old(self).successful_requests + old(self).failed_requests
                ==> final(self).total_requests == final(self).successful_requests
                + final(self).failed_requests,
            final(self).total_duration.nanos() == old(self).total_duration.nanos()
                + duration.nanos(),
            final(self).min_duration == old(self).min_duration,
            final(self).max_duration == old(self).max_duration,
            final(self).avg_duration.nanos() == final(self).total_duration.nanos() / count_divisor(
                final(self).total_requests as nat,
            ),
    {
        self.total_requests = self.total_requests + 1;
        self.failed_requests = self.failed_requests + 1;
        self.total_duration = self.total_duration.add(&duration);
        let divisor = (self.total_requests % 4294967296) as u32;
        self.avg_duration = self.total_duration.div(divisor);
    }

    /// Forgets everything recorded.
    pub fn reset(&mut self)
        ensures
            final(self).wf(),
            final(self).total_requests == 0 && final(self).successful_requests == 0
                && final(self).failed_requests == 0,
            final(self).total_duration.nanos() == 0 && final(self).avg_duration.nanos() == 0,
            final(self).min_duration is None && final(self).max_duration is None,
    {
        *self = Self::new();
    }
}

#[verifier::external_type_specification]
#[verifier::external_body]
pub struct ExInstant(std::time::Instant);

/// The present instant, from `std::time::Instant::now`; it depends on the
/// clock, so nothing is promised of it.
#[verifier::external_body]
fn instant_now() -> (r: std::time::Instant) {
    std::time::Instant::now()
}

/// The time elapsed since an instant, from `std::time::Instant::elapsed`,
/// as a span. It depends on the clock; what holds of every outcome is that a
/// `Duration` is never longer than the longest span.
#[verifier::external_body]
fn elapsed_since(start: &std::time::Instant) -> (r: TimeSpan)
    ensures
        r.wf(),
{
    TimeSpan { nanos: start.elapsed().as_nanos() }
}

/// Measures how long a named operation takes.
pub struct OperationTimer {
    start: std::time::Instant,
    operation_name: String,
}

impl OperationTimer {
    /// The name of the operation measured.
    pub closed spec fn name(&self) -> Seq<char> {
        self.operation_name@
    }

    /// Starts measuring an operation now.
    pub fn start(operation_name: &str) -> (t: Self)
        ensures
            t.name() == operation_name@,
    {
        OperationTimer { start: instant_now(), operation_name: String::from_str(operation_name) }
    }

    /// The name of the operation measured.
    pub fn operation_name(&self) -> (r: &str)
        ensures
            r@ == self.name(),
    {
        self.operation_name.as_str()
    }

    /// Stops measuring: the time since the start.
    pub fn stop(self) -> (d: TimeSpan)
        ensures
            d.wf(),
    {
        elapsed_since(&self.start)
    }

    /// Stops measuring an operation that succeeded or failed: the time since
    /// the start. The line that reports the outcome is written by the caller's
    /// logger.
    pub fn stop_and_log(self, success: bool) -> (d: TimeSpan)
        ensures
            d.wf(),
    {
        elapsed_since(&self.start)
    }
}

} // verus!
