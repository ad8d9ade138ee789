//! Shared statistics of a run: totals, failures, one latency histogram per kind
//! of operation, and the interval reports that a single reporter at a time
//! derives from them.

use crate::latency::{HistogramSnapshot, ReportLine, SharedHistogram, Snapshot, NANOS_PER_SEC};
use crate::report::Report;
use crate::workload::Operation;
use std::ops::DerefMut;
use std::sync::atomic::AtomicUsize;
use std::sync::atomic::Ordering;
use std::sync::{Mutex, MutexGuard};
use std::time::{Duration, Instant};
use vstd::prelude::*;

verus! {

/// How many operations have to be recorded after a report before the next one
/// is considered.
pub const REPORT_EVERY: usize = 1000;

/// Nanoseconds in a microsecond.
pub const NANOS_PER_MICRO: u128 = 1000;

/// The least time between two reports, in nanoseconds.
pub const REPORT_INTERVAL: u128 = NANOS_PER_SEC;

/// `std::time::Instant`.
#[verifier::external_type_specification]
#[verifier::external_body]
pub struct ExInstant(Instant);

/// `std::sync::Mutex`.
#[verifier::external_type_specification]
#[verifier::external_body]
#[verifier::reject_recursive_types(T)]
pub struct ExMutex<T: ?Sized>(Mutex<T>);

/// `std::sync::MutexGuard`.
#[verifier::external_type_specification]
#[verifier::external_body]
#[verifier::reject_recursive_types(T)]
pub struct ExMutexGuard<'a, T: ?Sized + 'a>(MutexGuard<'a, T>);

/// `Instant::now`: the reading of a monotonic clock, of which nothing is known
/// beforehand.
pub assume_specification[ Instant::now ]() -> Instant;

/// `Instant::elapsed`: the time since the instant was taken.
pub assume_specification[ Instant::elapsed ](at: &Instant) -> Duration;

/// `Duration::as_nanos`: the nanoseconds in a duration.
pub assume_specification[ Duration::as_nanos ](d: &Duration) -> u128;

/// `Mutex::new` around the state of the reporter.
#[verifier::external_body]
fn guard_new(last: LastReport) -> Mutex<LastReport> {
    Mutex::new(last)
}

/// `Mutex::try_lock`: the guard, unless another thread holds the lock or one
/// has panicked while holding it.
#[verifier::external_body]
fn guard_try_lock<'a>(lock: &'a Mutex<LastReport>) -> Option<MutexGuard<'a, LastReport>> {
    lock.try_lock().ok()
}

/// `DerefMut::deref_mut` of a guard: the state that the lock protects.
#[verifier::external_body]
fn guard_state<'a, 'b>(guard: &'a mut MutexGuard<'b, LastReport>) -> &'a mut LastReport {
    guard.deref_mut()
}

/// Whether enough work has been recorded since the last report to consider the
/// next one: at least `REPORT_EVERY` operations. A total that reads below the
/// last one reported is not enough.
pub open spec fn report_due(count: usize, last_count: usize) -> bool {
    count - last_count >= REPORT_EVERY
}

/// Decides `report_due` on two readings of the counters.
pub fn is_report_due(count: usize, last_count: usize) -> (due: bool)
    ensures
        due == report_due(count, last_count),
{
    count >= last_count && count - last_count >= REPORT_EVERY
}

/// The line of one kind of operation in an interval report, if any was
/// recorded between the two snapshots.
pub open spec fn interval_line(current: Snapshot, last: Snapshot, op: Operation, interval: int) -> Option<ReportLine> {
    if current.minus(last).count > 0 {
        Some(current.minus(last).line(op, interval))
    } else {
        None
    }
}

/// A snapshot that cannot have been taken after the one reported last: a count
/// or a counter of `op` has gone down.
#[derive(Clone, Copy, Debug, PartialEq, Eq, Structural)]
pub struct Underflow {
    pub op: Operation,
}

/// What the reporter remembers of its last report: when it was made, in
/// nanoseconds since the start of the run, and the snapshot that it covered of
/// each kind of operation.
pub struct LastReport {
    time: u128,
    histograms: [HistogramSnapshot; 3],
}

impl LastReport {
    /// When the last report was made.
    pub closed spec fn time(self) -> u128 {
        self.time
    }

    /// The snapshot of one kind of operation that the last report covered.
    pub closed spec fn snapshot(self, op: Operation) -> Snapshot {
        self.histograms[op.spec_index() as int]@
    }

    /// The time from the last report to `now`, and none if `now` is not after it.
    pub open spec fn interval(self, now: u128) -> int {
        if now >= self.time() {
            now - self.time()
        } else {
            0
        }
    }

    /// Whether a report is due at `now`: the last one is at least
    /// `REPORT_INTERVAL` old.
    pub open spec fn spec_due(&self, now: u128) -> bool {
        self.interval(now) >= REPORT_INTERVAL
    }

    /// The report that `emit` makes at `now` from the given totals and
    /// snapshots.
    pub open spec fn report(self, now: u128, count: usize, failure: usize, current: Seq<HistogramSnapshot>) -> Report {
        Report {
            count,
            failure,
            elapsed: now / NANOS_PER_SEC,
            read: interval_line(current[0]@, self.snapshot(Operation::Read), Operation::Read, self.interval(now)),
            scan: interval_line(current[1]@, self.snapshot(Operation::Scan), Operation::Scan, self.interval(now)),
            write: interval_line(current[2]@, self.snapshot(Operation::Write), Operation::Write, self.interval(now)),
        }
    }

    /// The state before the first report: made at the start, of empty
    /// snapshots.
    pub fn new() -> (last: LastReport)
        ensures
            last.time() == 0,
            forall|op: Operation| last.snapshot(op) == Snapshot::empty(),
    {
        LastReport { time: 0, histograms: [HistogramSnapshot::new(), HistogramSnapshot::new(), HistogramSnapshot::new()] }
    }

    /// Decides `spec_due`.
    #[verifier::when_used_as_spec(spec_due)]
    pub fn due(&self, now: u128) -> (due: bool)
        ensures
            due == self.spec_due(now),
    {
        now >= self.time && now - self.time >= REPORT_INTERVAL
    }

    /// Makes the report for the interval from the last report to `now`, and
    /// remembers `now` and the snapshots in `current` as the last report. Each
    /// kind of operation gets a line for what was recorded between its last
    /// snapshot and its current one, unless that is nothing. If a current
    /// snapshot cannot have been taken after the last one, nothing changes and
    /// the first such kind of operation is named.
    pub fn emit(&mut self, now: u128, count: usize, failure: usize, current: [HistogramSnapshot; 3]) -> (r: Result<Report, Underflow>)
        ensures
            r.is_ok() <==> forall|op: Operation| (#[trigger] current[op.spec_index() as int])@.dominates(old(self).snapshot(op)),
            r matches Ok(report) ==> {
                &&& report == old(self).report(now, count, failure, current@)
                &&& final(self).time() == now
                &&& forall|op: Operation| final(self).snapshot(op) == (#[trigger] current[op.spec_index() as int])@
                &&& forall|op: Operation| #[trigger] final(self).snapshot(op).dominates(old(self).snapshot(op))
                &&& old(self).spec_due(now) ==> final(self).time() >= old(self).time() + REPORT_INTERVAL
            },
            r matches Err(e) ==> {
                &&& !current[e.op.spec_index() as int]@.dominates(old(self).snapshot(e.op))
                &&& forall|op: Operation| op.spec_index() < e.op.spec_index() ==> (#[trigger] current[op.spec_index() as int])@.dominates(old(self).snapshot(op))
                &&& *final(self) == *old(self)
            },
    {
        let interval: u128 = if now >= self.time { now - self.time } else { 0 };
        let read = match current[0].checked_sub(&self.histograms[0]) {
            Some(d) => d,
            None => { return Err(Underflow { op: Operation::Read }); },
        };
        let scan = match current[1].checked_sub(&self.histograms[1]) {
            Some(d) => d,
            None => { return Err(Underflow { op: Operation::Scan }); },
        };
        let write = match current[2].checked_sub(&self.histograms[2]) {
            Some(d) => d,
            None => { return Err(Underflow { op: Operation::Write }); },
        };
        let report = Report {
            count,
            failure,
            elapsed: now / NANOS_PER_SEC,
            read: Self::line_of(&read, Operation::Read, interval),
            scan: Self::line_of(&scan, Operation::Scan, interval),
            write: Self::line_of(&write, Operation::Write, interval),
        };
        self.time = now;
        self.histograms = current;
        Ok(report)
    }

    /// The line for what an interval recorded of one kind of operation, unless
    /// that is nothing.
    fn line_of(recorded: &HistogramSnapshot, op: Operation, interval: u128) -> (l: Option<ReportLine>)
        ensures
            l == (if recorded@.count > 0 { Some(recorded@.line(op, interval as int)) } else { None }),
    {
        if recorded.count() > 0 {
            Some(recorded.report(op, interval))
        } else {
            None
        }
    }
}

/// The whole microseconds in a number of nanoseconds, as the low 64 bits of
/// their number.
pub open spec fn spec_micros_of(nanos: u128) -> u64 {
    ((nanos / NANOS_PER_MICRO) % 0x1_0000_0000_0000_0000) as u64
}

/// The whole microseconds in a number of nanoseconds, as the low 64 bits of
/// their number.
#[verifier::when_used_as_spec(spec_micros_of)]
pub fn micros_of(nanos: u128) -> (micros: u64)
    ensures
        micros == spec_micros_of(nanos),
{
    let whole: u128 = nanos / NANOS_PER_MICRO;
    assert(whole & 0xffff_ffff_ffff_ffff == whole % 0x1_0000_0000_0000_0000) by (bit_vector);
    assert((whole & 0xffff_ffff_ffff_ffff) as u64 == whole & 0xffff_ffff_ffff_ffff) by (bit_vector);
    (whole & 0xffff_ffff_ffff_ffff) as u64
}

/// The whole microseconds since `start`, as the low 64 bits of their number.
fn elapsed_micros(start: &Instant) -> u64 {
    micros_of(elapsed_nanos(start))
}

/// The nanoseconds since `start`.
fn elapsed_nanos(start: &Instant) -> u128 {
    let elapsed = start.elapsed();
    elapsed.as_nanos()
}

/// The statistics of a run, which its workers share: any number of them record
/// at once, and at most one at a time reports.
pub struct Statistics {
    start: Instant,
    count: AtomicUsize,
    failure: AtomicUsize,
    histograms: [SharedHistogram; 3],
    last_count: AtomicUsize,
    last_report: Mutex<LastReport>,
}

impl Statistics {
    /// The statistics of a run that starts now.
    pub fn new() -> Statistics {
        Statistics {
            start: Instant::now(),
            count: AtomicUsize::new(0),
            failure: AtomicUsize::new(0),
            histograms: [SharedHistogram::new(), SharedHistogram::new(), SharedHistogram::new()],
            last_count: AtomicUsize::new(0),
            last_report: guard_new(LastReport::new()),
        }
    }

    /// Runs `f` and records it as one operation of kind `op`: the total goes
    /// up by one; if `f` succeeded, the time it took is added to the histogram
    /// of `op`, in microseconds, and if it failed, the failures go up by one
    /// and no histogram changes. Then an interval report is made if one is
    /// due, as `report` says. The counters are shared with the other workers,
    /// so no contract can speak of their values; `totals::Totals::recorded` is
    /// what one call adds to them.
    pub fn record<T, E, F: FnOnce() -> Result<T, E>>(&self, op: Operation, f: F) -> (r: Result<Option<Report>, Underflow>)
        requires
            f.requires(()),
        ensures
            exists|outcome: Result<T, E>| f.ensures((), outcome),
            r matches Ok(Some(report)) ==> report.count >= REPORT_EVERY && report.elapsed >= 1,
    {
        let start = Instant::now();
        let result = f();
        let duration = elapsed_micros(&start);
        self.count.fetch_add(1, Ordering::Relaxed);
        match result {
            Ok(_) => {
                self.histograms[op.index()].add(duration);
            },
            Err(_) => {
                self.failure.fetch_add(1, Ordering::Relaxed);
            },
        }
        self.report()
    }

    /// Makes an interval report if one is due and no other thread is making
    /// one. A report is due when at least `REPORT_EVERY` operations were
    /// recorded since the last report and at least `REPORT_INTERVAL` has passed
    /// since. The report covers what was recorded since the last one, which it
    /// replaces. An `Underflow` says that a histogram was read with less in it
    /// than at the last report, which no run of this library brings about.
    pub fn report(&self) -> (r: Result<Option<Report>, Underflow>)
        ensures
            r matches Ok(Some(report)) ==> report.count >= REPORT_EVERY && report.elapsed >= 1,
    {
        let count = self.count.load(Ordering::Relaxed);
        let last_count = self.last_count.load(Ordering::Relaxed);
        if !is_report_due(count, last_count) {
            return Ok(None);
        }
        let Some(mut guard) = guard_try_lock(&self.last_report) else {
            return Ok(None);
        };
        let last = guard_state(&mut guard);
        let now = elapsed_nanos(&self.start);
        if !last.due(now) {
            return Ok(None);
        }
        self.last_count.store(count, Ordering::Release);
        let failure = self.failure.load(Ordering::Relaxed);
        let current = [self.histograms[0].load(), self.histograms[1].load(), self.histograms[2].load()];
        match last.emit(now, count, failure, current) {
            Ok(report) => Ok(Some(report)),
            Err(e) => Err(e),
        }
    }

    /// The number of operations recorded so far.
    pub fn count(&self) -> usize {
        self.count.load(Ordering::Relaxed)
    }

    /// The number of operations recorded so far that failed.
    pub fn failure(&self) -> usize {
        self.failure.load(Ordering::Relaxed)
    }

    /// A snapshot of the latencies recorded so far for one kind of operation.
    pub fn snapshot(&self, op: Operation) -> HistogramSnapshot {
        self.histograms[op.index()].load()
    }
}

} // verus!
