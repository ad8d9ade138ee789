use std::cell::Cell;
use std::time::{Duration, Instant};

use kvbench::latency::{HistogramSnapshot, SharedHistogram, NANOS_PER_SEC};
use kvbench::report::Report;
use kvbench::statistics::{
    is_report_due, micros_of, LastReport, Statistics, Underflow, REPORT_EVERY, REPORT_INTERVAL,
};
use kvbench::workload::Operation;

fn snapshot(values: &[(u64, usize)]) -> HistogramSnapshot {
    let h = SharedHistogram::new();
    for &(us, times) in values {
        for _ in 0..times {
            h.add(us);
        }
    }
    h.load()
}

fn ok() -> Result<(), String> {
    Ok(())
}

fn failed() -> Result<(), String> {
    Err(String::from("no"))
}

fn wait_until(start: Instant, millis: u64) {
    while start.elapsed() < Duration::from_millis(millis) {
        std::hint::spin_loop();
    }
}

#[test]
fn microseconds_are_whole_and_wrap_at_sixty_four_bits() {
    assert_eq!(micros_of(0), 0);
    assert_eq!(micros_of(999), 0);
    assert_eq!(micros_of(1000), 1);
    assert_eq!(micros_of(1_999_999), 1999);
    assert_eq!(micros_of(30_000_000), 30_000);
    assert_eq!(micros_of(u64::MAX as u128 * 1000 + 999), u64::MAX);
    assert_eq!(micros_of((u64::MAX as u128 + 6) * 1000), 5);
    assert_eq!(micros_of(u128::MAX), ((u128::MAX / 1000) % (1 << 64)) as u64);
}

#[test]
fn report_thresholds() {
    assert_eq!(REPORT_EVERY, 1000);
    assert_eq!(REPORT_INTERVAL, 1_000_000_000);
}

#[test]
fn a_report_is_due_after_a_thousand_more_operations() {
    assert!(is_report_due(1000, 0));
    assert!(!is_report_due(999, 0));
    assert!(is_report_due(2500, 1500));
    assert!(!is_report_due(2499, 1500));
    assert!(!is_report_due(0, 0));
    assert!(is_report_due(usize::MAX, 0));
}

#[test]
fn a_total_below_the_last_one_is_not_due() {
    assert!(!is_report_due(5, 10));
    assert!(!is_report_due(0, usize::MAX));
    assert!(!is_report_due(1000, 1001));
}

#[test]
fn the_first_report_is_due_a_second_after_the_start() {
    let last = LastReport::new();
    assert!(!last.due(0));
    assert!(!last.due(NANOS_PER_SEC - 1));
    assert!(last.due(NANOS_PER_SEC));
    assert!(last.due(u128::MAX));
}

#[test]
fn emit_reports_the_interval_and_remembers_it() {
    let mut last = LastReport::new();
    let first = [snapshot(&[(10, 3000)]), snapshot(&[]), snapshot(&[(1_000_000, 500)])];
    let report = last.emit(2 * NANOS_PER_SEC, 3510, 10, first).unwrap();
    assert_eq!(report.count, 3510);
    assert_eq!(report.failure, 10);
    assert_eq!(report.elapsed, 2);
    let read = report.read.unwrap();
    assert_eq!((read.op, read.ops, read.p50, read.max), (Operation::Read, 1500, 0, 0));
    assert_eq!(report.scan, None);
    let write = report.write.unwrap();
    assert_eq!((write.op, write.ops, write.p50, write.p95), (Operation::Write, 250, 1023, 1023));
    assert_eq!((write.p99, write.max), (1023, 1023));
    assert_eq!(report.line(Operation::Read), report.read);
    assert_eq!(report.line(Operation::Scan), None);
    assert_eq!(report.line(Operation::Write), report.write);

    // the next report is due a second after this one, and covers what came since
    assert!(!last.due(3 * NANOS_PER_SEC - 1));
    assert!(last.due(3 * NANOS_PER_SEC));
    let second = [
        snapshot(&[(10, 3000)]),
        snapshot(&[(7, 40)]),
        snapshot(&[(1_000_000, 500), (3, 1500)]),
    ];
    let report = last.emit(3_500_000_000, 5050, 10, second).unwrap();
    assert_eq!(report.elapsed, 3);
    assert_eq!(report.read, None);
    assert_eq!(report.scan.unwrap().ops, 26);
    let write = report.write.unwrap();
    assert_eq!((write.ops, write.p50, write.max), (1000, 0, 0));
}

#[test]
fn emit_refuses_a_snapshot_that_went_down() {
    let mut last = LastReport::new();
    let first = [snapshot(&[(10, 5)]), snapshot(&[(10, 5)]), snapshot(&[(10, 5)])];
    last.emit(NANOS_PER_SEC, 15, 0, first).unwrap();
    let lower = [snapshot(&[(10, 6)]), snapshot(&[(10, 4)]), snapshot(&[(10, 3)])];
    assert_eq!(last.emit(2 * NANOS_PER_SEC, 13, 0, lower), Err(Underflow { op: Operation::Scan }));
    // nothing changed: the next report is still due a second after the first
    assert!(last.due(2 * NANOS_PER_SEC));
    let moved = [snapshot(&[(10, 5)]), snapshot(&[(10, 5)]), snapshot(&[(20, 5)])];
    assert_eq!(last.emit(2 * NANOS_PER_SEC, 15, 0, moved), Err(Underflow { op: Operation::Write }));
    let higher = [snapshot(&[(10, 6)]), snapshot(&[(10, 5)]), snapshot(&[(10, 5)])];
    let report = last.emit(2 * NANOS_PER_SEC, 16, 0, higher).unwrap();
    assert_eq!(report.read.unwrap().ops, 1);
    assert_eq!(report.scan, None);
    assert_eq!(report.write, None);
}

#[test]
fn emit_at_a_time_before_the_last_report_counts_no_time() {
    let mut last = LastReport::new();
    last.emit(5 * NANOS_PER_SEC, 0, 0, [snapshot(&[]), snapshot(&[]), snapshot(&[])]).unwrap();
    assert!(!last.due(4 * NANOS_PER_SEC));
    let report = last
        .emit(4 * NANOS_PER_SEC, 1, 0, [snapshot(&[(1, 1)]), snapshot(&[]), snapshot(&[])])
        .unwrap();
    assert_eq!(report.elapsed, 4);
    assert_eq!(report.read.unwrap().ops, u64::MAX);
}

#[test]
fn report_text() {
    let mut last = LastReport::new();
    let current = [snapshot(&[(10, 3000)]), snapshot(&[]), snapshot(&[(1_000_000, 123_456)])];
    let report = last.emit(2 * NANOS_PER_SEC, 126_456, 7, current).unwrap();
    assert_eq!(
        report.render(),
        vec![
            "--- Total: 126456 Failure: 7 Elapsed: 2s ---",
            "Read  - OPS:  1500, P50:     0us, P95:     0us, P99:     0us, MAX:     0us",
            "Write - OPS: 61728, P50:  1023us, P95:  1023us, P99:  1023us, MAX:  1023us",
        ]
    );
    let empty = Report { count: 0, failure: 0, elapsed: 0, read: None, scan: None, write: None };
    assert_eq!(empty.render(), vec!["--- Total: 0 Failure: 0 Elapsed: 0s ---"]);
}

#[test]
fn report_text_has_a_line_for_each_kind_recorded() {
    let mut last = LastReport::new();
    let current = [snapshot(&[(1, 10)]), snapshot(&[(1, 2_000_000)]), snapshot(&[(1, 30)])];
    let report = last.emit(10 * NANOS_PER_SEC, 2_000_040, 0, current).unwrap();
    assert_eq!(
        report.render(),
        vec![
            "--- Total: 2000040 Failure: 0 Elapsed: 10s ---",
            "Read  - OPS:     1, P50:     0us, P95:     0us, P99:     0us, MAX:     0us",
            "Scan  - OPS: 200000, P50:     0us, P95:     0us, P99:     0us, MAX:     0us",
            "Write - OPS:     3, P50:     0us, P95:     0us, P99:     0us, MAX:     0us",
        ]
    );
}

#[test]
fn record_counts_successes_and_failures() {
    let statistics = Statistics::new();
    assert_eq!(statistics.count(), 0);
    assert_eq!(statistics.failure(), 0);
    for _ in 0..7 {
        assert_eq!(statistics.record(Operation::Read, ok), Ok(None));
    }
    for _ in 0..3 {
        assert_eq!(statistics.record(Operation::Read, failed), Ok(None));
    }
    for _ in 0..5 {
        statistics.record(Operation::Write, ok).unwrap();
    }
    statistics.record(Operation::Scan, failed).unwrap();
    assert_eq!(statistics.count(), 16);
    assert_eq!(statistics.failure(), 4);
    assert_eq!(statistics.snapshot(Operation::Read).count(), 7);
    assert_eq!(statistics.snapshot(Operation::Scan).count(), 0);
    assert_eq!(statistics.snapshot(Operation::Write).count(), 5);
}

#[test]
fn record_runs_the_operation_once() {
    let statistics = Statistics::new();
    let calls = Cell::new(0);
    statistics
        .record(Operation::Write, || -> Result<u8, ()> {
            calls.set(calls.get() + 1);
            Ok(1)
        })
        .unwrap();
    assert_eq!(calls.get(), 1);
}

#[test]
fn failure_accounting() {
    let statistics = Statistics::new();
    let calls = Cell::new(0usize);
    for _ in 0..1000 {
        statistics
            .record(Operation::Write, || {
                calls.set(calls.get() + 1);
                if calls.get() % 2 == 0 {
                    failed()
                } else {
                    ok()
                }
            })
            .unwrap();
    }
    assert_eq!(statistics.count(), 1000);
    assert_eq!(statistics.failure(), 500);
    let writes = statistics.snapshot(Operation::Write);
    assert_eq!(writes.count(), 500);
    let recorded: u128 = [Operation::Read, Operation::Scan, Operation::Write]
        .into_iter()
        .map(|op| statistics.snapshot(op).total())
        .sum();
    assert_eq!(recorded, 1000 - 500);
}

#[test]
fn record_times_the_operation() {
    let statistics = Statistics::new();
    statistics
        .record(Operation::Read, || {
            wait_until(Instant::now(), 30);
            ok()
        })
        .unwrap();
    // 30ms fall into a bucket that is 64 microseconds wide or wider
    let read = statistics.snapshot(Operation::Read);
    assert!(read.percentile(100) >= 31, "half the width was {}", read.percentile(100));
}

#[test]
fn snapshots_only_grow() {
    let statistics = Statistics::new();
    let mut earlier = statistics.snapshot(Operation::Read);
    for round in 0..50u64 {
        for i in 0..20u64 {
            statistics.record(Operation::Read, || {
                if (round + i) % 3 == 0 { wait_until(Instant::now(), 1) }
                ok()
            }).unwrap();
        }
        let later = statistics.snapshot(Operation::Read);
        let added = later.checked_sub(&earlier).unwrap();
        assert_eq!(added.count(), 20);
        assert_eq!(added.total(), 20);
        assert!(earlier.checked_sub(&later).is_none());
        earlier = later;
    }
}

#[test]
fn no_report_before_a_thousand_operations() {
    let start = Instant::now();
    let statistics = Statistics::new();
    for _ in 0..999 {
        statistics.record(Operation::Read, ok).unwrap();
    }
    wait_until(start, 1100);
    assert_eq!(statistics.report(), Ok(None));
}

/// Records through the statistics and holds every answer against what the
/// clock and the count allow: a report needs a second and a thousand
/// operations since the last one, and is owed once both are there.
struct Watch {
    statistics: Statistics,
    /// The last report was made at this instant or later.
    floor: Instant,
    /// The last report was made at this instant or earlier.
    ceiling: Instant,
    recorded: usize,
    failed: usize,
    since_report: usize,
    reports: Vec<Report>,
}

impl Watch {
    fn new() -> Watch {
        let floor = Instant::now();
        let statistics = Statistics::new();
        let ceiling = Instant::now();
        Watch { statistics, floor, ceiling, recorded: 0, failed: 0, since_report: 0, reports: Vec::new() }
    }

    fn check(&mut self, before: Instant, answer: Option<Report>) {
        let after = Instant::now();
        match answer {
            Some(report) => {
                assert!(after.duration_since(self.floor) >= Duration::from_secs(1));
                assert!(self.since_report >= 1000);
                assert_eq!(report.count, self.recorded);
                assert_eq!(report.failure, self.failed);
                assert!(report.elapsed >= 1);
                self.floor = before;
                self.ceiling = after;
                self.since_report = 0;
                self.reports.push(report);
            }
            None => {
                let owed = before.duration_since(self.ceiling) >= Duration::from_secs(1)
                    && self.since_report >= 1000;
                assert!(!owed, "no report after a second and {} operations", self.since_report);
            }
        }
    }

    fn record(&mut self, op: Operation, succeed: bool) {
        let before = Instant::now();
        self.recorded += 1;
        self.since_report += 1;
        if !succeed {
            self.failed += 1;
        }
        let answer = self.statistics.record(op, if succeed { ok } else { failed }).unwrap();
        self.check(before, answer);
    }

    fn report(&mut self) {
        let before = Instant::now();
        let answer = self.statistics.report().unwrap();
        self.check(before, answer);
    }

    fn wait(&self) {
        wait_until(self.ceiling, 1050);
    }
}

#[test]
fn no_report_before_a_second() {
    let mut watch = Watch::new();
    let start = Instant::now();
    for _ in 0..5000 {
        watch.record(Operation::Read, true);
    }
    if start.elapsed() < Duration::from_secs(1) {
        assert!(watch.reports.is_empty());
    }
}

#[test]
fn reports_come_a_second_and_a_thousand_operations_apart() {
    let mut watch = Watch::new();
    for _ in 0..1500 {
        watch.record(Operation::Read, true);
    }
    for _ in 0..500 {
        watch.record(Operation::Write, false);
    }
    watch.wait();
    let before = watch.reports.len();
    watch.record(Operation::Write, true);
    assert_eq!(watch.reports.len(), before + 1);
    let report = watch.reports[before];
    if before == 0 {
        let read = report.read.unwrap();
        assert!(read.ops >= 1 && read.ops <= 1500, "reads per second: {}", read.ops);
        assert_eq!(report.scan, None);
        assert!(report.write.unwrap().ops <= 1);
        assert_eq!(report.render().len(), 3);
    }

    // after a report none is due at once, whatever is recorded
    for _ in 0..3000 {
        watch.record(Operation::Scan, true);
    }
    // a second later one is: it covers the scans, and nothing that came before
    watch.wait();
    let before = watch.reports.len();
    watch.report();
    if watch.reports.len() == before + 1 && before == 1 {
        let report = watch.reports[before];
        assert_eq!(report.count, 5001);
        assert_eq!(report.failure, 500);
        assert_eq!(report.read, None);
        assert_eq!(report.write, None);
        let scan = report.scan.unwrap();
        assert!(scan.ops >= 1 && scan.ops <= 3000, "scans per second: {}", scan.ops);
    }
    // and after it a thousand more operations are needed again
    watch.wait();
    let before = watch.reports.len();
    watch.report();
    assert_eq!(watch.reports.len(), before);
    assert!(!watch.reports.is_empty());
}
