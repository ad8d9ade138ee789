//! Latency histograms: a lock-free cumulative one that workers add to, and the
//! snapshots of it that interval reports subtract.

use crate::workload::Operation;
use std::sync::atomic::AtomicUsize;
use std::sync::atomic::Ordering;
use vstd::arithmetic::power2::{lemma2_to64, pow2};
use vstd::prelude::*;

verus! {

/// The number of linear sub-buckets per power of two, as a power of two.
pub const GROUPING_POWER: u8 = 8;

/// The largest value that a histogram holds, as a power of two.
pub const MAX_VALUE_POWER: u8 = 64;

/// The number of buckets of a histogram with these two parameters.
pub const BUCKETS: usize = 14592;

/// Nanoseconds in a second.
pub const NANOS_PER_SEC: u128 = 1_000_000_000;

/// The number of buckets of a histogram with the given parameters: twice
/// `2^grouping_power` linear ones, then `2^grouping_power` for each further
/// power of two up to the largest.
pub open spec fn bucket_total(grouping_power: u8, max_value_power: u8) -> nat {
    (pow2(grouping_power as nat) * (max_value_power - grouping_power + 1)) as nat
}

proof fn lemma_bucket_total()
    ensures
        bucket_total(GROUPING_POWER, MAX_VALUE_POWER) == BUCKETS,
{
    lemma2_to64();
}

/// `histogram::Histogram`: plain 64-bit counters, one per bucket.
#[verifier::external_type_specification]
#[verifier::external_body]
pub struct ExStandardHistogram(::histogram::Histogram);

/// `histogram::AtomicHistogram`: atomic 64-bit counters, one per bucket.
#[verifier::external_type_specification]
#[verifier::external_body]
pub struct ExAtomicHistogram(::histogram::AtomicHistogram);

/// The counters of a histogram, by bucket index.
pub uninterp spec fn bucket_counts(h: ::histogram::Histogram) -> Seq<u64>;

/// The grouping power and the max value power that a histogram was made with.
pub uninterp spec fn parameters(h: ::histogram::Histogram) -> (u8, u8);

/// The grouping power and the max value power that an atomic histogram was made
/// with.
pub uninterp spec fn atomic_parameters(h: ::histogram::AtomicHistogram) -> (u8, u8);

/// The bounds of the bucket that `histogram::Histogram::percentiles` reports for
/// one percentile, given the counters and the parameters of the histogram.
pub uninterp spec fn percentile_bounds(
    counts: Seq<u64>,
    grouping_power: u8,
    max_value_power: u8,
    percentile: u8,
) -> Option<(u64, u64)>;

/// `histogram::Histogram::new`. It fails only on parameters that do not fit
/// together; a new histogram has the parameters given, one counter per bucket,
/// and every counter at zero. Grouping powers above 16 are left out: the
/// crate's bucket arithmetic is not guarded for the large ones.
#[verifier::external_body]
fn standard_new(grouping_power: u8, max_value_power: u8) -> (r: Option<::histogram::Histogram>)
    requires
        grouping_power <= 16,
    ensures
        r.is_some() <==> grouping_power < max_value_power <= 64,
        r matches Some(h) ==> parameters(h) == (grouping_power, max_value_power),
        r matches Some(h) ==> bucket_counts(h) == zeros(bucket_total(grouping_power, max_value_power)),
{
    ::histogram::Histogram::new(grouping_power, max_value_power).ok()
}

/// `histogram::AtomicHistogram::new`, which fails as `Histogram::new` does.
#[verifier::external_body]
fn atomic_new(grouping_power: u8, max_value_power: u8) -> (r: Option<::histogram::AtomicHistogram>)
    requires
        grouping_power <= 16,
    ensures
        r.is_some() <==> grouping_power < max_value_power <= 64,
        r matches Some(h) ==> atomic_parameters(h) == (grouping_power, max_value_power),
{
    ::histogram::AtomicHistogram::new(grouping_power, max_value_power).ok()
}

/// `histogram::AtomicHistogram::increment`, and whether it took the value. It
/// refuses only a value above the largest that the histogram holds, and with a
/// max value power of 64 there is none.
#[verifier::external_body]
fn atomic_increment(h: &::histogram::AtomicHistogram, value: u64) -> (taken: bool)
    ensures
        atomic_parameters(*h).1 == 64 ==> taken,
{
    h.increment(value).is_ok()
}

/// `histogram::AtomicHistogram::load`. The snapshot has the parameters of the
/// histogram read and one counter per bucket; what the counters hold depends on
/// what other threads have added.
#[verifier::external_body]
fn atomic_load(h: &::histogram::AtomicHistogram) -> (r: ::histogram::Histogram)
    ensures
        parameters(r) == atomic_parameters(*h),
        bucket_counts(r).len() == bucket_total(atomic_parameters(*h).0, atomic_parameters(*h).1),
{
    h.load()
}

/// `histogram::Histogram::checked_sub`. It succeeds when both histograms have
/// the same parameters and no counter of `a` is below its counterpart in `b`;
/// the result has the parameters of `a` and the differences as counters.
#[verifier::external_body]
fn standard_checked_sub(a: &::histogram::Histogram, b: &::histogram::Histogram) -> (r: Option<::histogram::Histogram>)
    ensures
        r.is_some() <==> (parameters(*a) == parameters(*b) && covers(bucket_counts(*a), bucket_counts(*b))),
        r matches Some(d) ==> parameters(d) == parameters(*a),
        r matches Some(d) ==> bucket_counts(d) == difference(bucket_counts(*a), bucket_counts(*b)),
{
    a.checked_sub(b).ok()
}

/// `histogram::Histogram::percentiles` for one percentile, with the bounds of
/// the bucket found, if any. The lower bound of a bucket is never above its
/// upper bound, and a histogram whose counters are all zero has no bucket to
/// find.
#[verifier::external_body]
fn standard_percentile(h: &::histogram::Histogram, percentile: u8) -> (r: Option<(u64, u64)>)
    ensures
        r == percentile_bounds(bucket_counts(*h), parameters(*h).0, parameters(*h).1, percentile),
        r matches Some(bounds) ==> bounds.0 <= bounds.1,
        sum(bucket_counts(*h)) == 0 ==> r.is_none(),
{
    let found = h.percentiles(&[percentile.into()]).ok().flatten()?;
    found.first().map(|entry| (entry.1.start(), entry.1.end()))
}

/// `histogram::Histogram::as_slice`: the counters, in the order of the buckets.
#[verifier::external_body]
fn standard_counts(h: &::histogram::Histogram) -> (r: &[u64])
    ensures
        r@ == bucket_counts(*h),
{
    h.as_slice()
}

/// `n` counters at zero.
pub open spec fn zeros(n: nat) -> Seq<u64> {
    Seq::new(n, |i: int| 0u64)
}

/// Whether every counter of `a` is at least its counterpart in `b`.
pub open spec fn covers(a: Seq<u64>, b: Seq<u64>) -> bool {
    &&& a.len() == b.len()
    &&& forall|i: int| 0 <= i < a.len() ==> a[i] >= b[i]
}

/// The counters of `a` less those of `b`, bucket by bucket.
pub open spec fn difference(a: Seq<u64>, b: Seq<u64>) -> Seq<u64> {
    Seq::new(a.len(), |i: int| (a[i] - b[i]) as u64)
}

/// The sum of a sequence of counters.
pub open spec fn sum(counts: Seq<u64>) -> nat
    decreases counts.len(),
{
    if counts.len() == 0 {
        0
    } else {
        sum(counts.drop_last()) + counts.last() as nat
    }
}

/// Operations per second, for `count` operations in `interval` nanoseconds,
/// rounded down and held to the range of `u64`. No time at all counts as
/// infinitely fast, unless nothing was done.
pub open spec fn throughput(count: int, interval: int) -> int {
    if interval <= 0 {
        if count <= 0 {
            0
        } else {
            u64::MAX as int
        }
    } else if count * NANOS_PER_SEC / interval > u64::MAX {
        u64::MAX as int
    } else {
        count * NANOS_PER_SEC / interval
    }
}

/// What a snapshot holds: the number of operations recorded, and the counter of
/// each latency bucket.
pub struct Snapshot {
    pub count: nat,
    pub buckets: Seq<u64>,
}

impl Snapshot {
    /// The snapshot of a histogram that nothing was added to.
    pub open spec fn empty() -> Snapshot {
        Snapshot { count: 0, buckets: zeros(BUCKETS as nat) }
    }

    /// Whether `self` can have been taken after `earlier` from a histogram that
    /// only grows: no count and no counter is lower.
    pub open spec fn dominates(self, earlier: Snapshot) -> bool {
        self.count >= earlier.count && covers(self.buckets, earlier.buckets)
    }

    /// Whether the count is the sum of the buckets: every operation counted is
    /// in one bucket.
    pub open spec fn consistent(self) -> bool {
        self.count == sum(self.buckets)
    }

    /// What was added between `earlier` and `self`.
    pub open spec fn minus(self, earlier: Snapshot) -> Snapshot {
        Snapshot {
            count: (self.count - earlier.count) as nat,
            buckets: difference(self.buckets, earlier.buckets),
        }
    }

    /// Half the width of the bucket in which the given percentile falls, and 0
    /// where no bucket is found.
    pub open spec fn percentile(self, percentile: u8) -> u64 {
        match percentile_bounds(self.buckets, GROUPING_POWER, MAX_VALUE_POWER, percentile) {
            Some(bounds) => ((bounds.1 - bounds.0) / 2) as u64,
            None => 0,
        }
    }

    /// The line that reports this snapshot as the work of `interval` nanoseconds.
    pub open spec fn line(self, op: Operation, interval: int) -> ReportLine {
        ReportLine {
            op,
            ops: throughput(self.count as int, interval) as u64,
            p50: self.percentile(50),
            p95: self.percentile(95),
            p99: self.percentile(99),
            max: self.percentile(100),
        }
    }
}

/// The counters of an interval sum to what the later counters sum to, less
/// what the earlier ones do.
pub proof fn lemma_sum_of_difference(later: Seq<u64>, earlier: Seq<u64>)
    requires
        covers(later, earlier),
    ensures
        sum(difference(later, earlier)) == sum(later) - sum(earlier),
    decreases later.len(),
{
    if later.len() > 0 {
        lemma_sum_of_difference(later.drop_last(), earlier.drop_last());
        assert(difference(later, earlier).drop_last() =~= difference(
            later.drop_last(),
            earlier.drop_last(),
        ));
    }
}

/// Intervals add up. Of three snapshots, each taken after the one before from a
/// histogram that only grows, the last can have been taken after the first,
/// and what was recorded between the first and the last is what was recorded
/// between the first and the second and between the second and the last,
/// together: in count, in every bucket, and in the sum of the buckets.
pub proof fn lemma_intervals_add_up(first: Snapshot, second: Snapshot, last: Snapshot)
    requires
        second.dominates(first),
        last.dominates(second),
    ensures
        last.dominates(first),
        last.minus(first).count == last.minus(second).count + second.minus(first).count,
        forall|i: int|
            0 <= i < last.buckets.len() ==> #[trigger] last.minus(first).buckets[i]
                == last.minus(second).buckets[i] + second.minus(first).buckets[i],
        sum(last.minus(first).buckets) == sum(last.minus(second).buckets) + sum(
            second.minus(first).buckets,
        ),
{
    lemma_sum_of_difference(last.buckets, first.buckets);
    lemma_sum_of_difference(last.buckets, second.buckets);
    lemma_sum_of_difference(second.buckets, first.buckets);
}

/// A snapshot whose count is the sum of its buckets keeps that over an
/// interval: if it holds of two snapshots, it holds of what was recorded
/// between them.
pub proof fn lemma_interval_is_consistent(later: Snapshot, earlier: Snapshot)
    requires
        later.dominates(earlier),
        later.consistent(),
        earlier.consistent(),
    ensures
        later.minus(earlier).consistent(),
{
    lemma_sum_of_difference(later.buckets, earlier.buckets);
}

/// Nothing is recorded between a snapshot and itself, and every snapshot of a
/// histogram can have been taken after the empty one of its size.
pub proof fn lemma_interval_from_nothing(s: Snapshot)
    ensures
        s.dominates(s),
        s.minus(s) == (Snapshot { count: 0, buckets: zeros(s.buckets.len()) }),
        s.buckets.len() == BUCKETS ==> s.dominates(Snapshot::empty()) && s.minus(Snapshot::empty())
            == s,
{
    assert(difference(s.buckets, s.buckets) =~= zeros(s.buckets.len()));
    if s.buckets.len() == BUCKETS {
        assert(difference(s.buckets, zeros(BUCKETS as nat)) =~= s.buckets);
    }
}

/// One line of an interval report: the throughput of one kind of operation and
/// its latencies in microseconds.
#[derive(Clone, Copy, Debug, PartialEq, Eq, Structural)]
pub struct ReportLine {
    pub op: Operation,
    pub ops: u64,
    pub p50: u64,
    pub p95: u64,
    pub p99: u64,
    pub max: u64,
}

/// A snapshot of the latencies recorded for one kind of operation.
#[derive(Debug)]
pub struct HistogramSnapshot {
    count: usize,
    histogram: ::histogram::Histogram,
}

impl View for HistogramSnapshot {
    type V = Snapshot;

    closed spec fn view(&self) -> Snapshot {
        Snapshot { count: self.count as nat, buckets: bucket_counts(self.histogram) }
    }
}

impl HistogramSnapshot {
    #[verifier::type_invariant]
    spec fn well_formed(self) -> bool {
        &&& parameters(self.histogram) == (GROUPING_POWER, MAX_VALUE_POWER)
        &&& bucket_counts(self.histogram).len() == BUCKETS
    }

    /// An empty snapshot.
    pub fn new() -> (h: HistogramSnapshot)
        ensures
            h@ == Snapshot::empty(),
    {
        proof {
            lemma_bucket_total();
        }
        let made = standard_new(GROUPING_POWER, MAX_VALUE_POWER);
        HistogramSnapshot { count: 0, histogram: made.unwrap() }
    }

    /// The number of operations recorded.
    pub fn count(&self) -> (n: usize)
        ensures
            n == self@.count,
    {
        self.count
    }

    /// The sum of all counters.
    pub fn total(&self) -> (n: u128)
        ensures
            n == sum(self@.buckets),
            self@.buckets.len() == BUCKETS,
    {
        proof {
            use_type_invariant(self);
        }
        let counts = standard_counts(&self.histogram);
        let mut n: u128 = 0;
        let mut i: usize = 0;
        while i < counts.len()
            invariant
                i <= counts.len() == BUCKETS,
                n == sum(counts@.take(i as int)),
                n <= i * u64::MAX,
            decreases counts.len() - i,
        {
            proof {
                assert(counts@.take(i + 1).drop_last() =~= counts@.take(i as int));
            }
            n = n + counts[i] as u128;
            i = i + 1;
        }
        proof {
            assert(counts@.take(i as int) =~= counts@);
        }
        n
    }

    /// What was recorded since `earlier`, if `self` can have been taken after
    /// it; `None` if a count or a counter would go below zero.
    pub fn checked_sub(&self, earlier: &HistogramSnapshot) -> (r: Option<HistogramSnapshot>)
        ensures
            r.is_some() <==> self@.dominates(earlier@),
            r matches Some(d) ==> d@ == self@.minus(earlier@),
    {
        proof {
            use_type_invariant(self);
            use_type_invariant(earlier);
        }
        if self.count < earlier.count {
            return None;
        }
        match standard_checked_sub(&self.histogram, &earlier.histogram) {
            Some(histogram) => Some(HistogramSnapshot { count: self.count - earlier.count, histogram }),
            None => None,
        }
    }

    /// What was recorded since `earlier`.
    pub fn sub(&self, earlier: &HistogramSnapshot) -> (d: HistogramSnapshot)
        requires
            self@.dominates(earlier@),
        ensures
            d@ == self@.minus(earlier@),
    {
        self.checked_sub(earlier).unwrap()
    }

    /// Half the width of the bucket in which the given percentile of the
    /// latencies falls, in microseconds; 0 for a snapshot without a bucket to
    /// report.
    pub fn percentile(&self, percentile: u8) -> (us: u64)
        ensures
            us == self@.percentile(percentile),
            sum(self@.buckets) == 0 ==> us == 0,
    {
        proof {
            use_type_invariant(self);
        }
        match standard_percentile(&self.histogram, percentile) {
            Some(bounds) => (bounds.1 - bounds.0) / 2,
            None => 0,
        }
    }

    /// The report line for this snapshot, taken as the work of `interval`
    /// nanoseconds.
    pub fn report(&self, op: Operation, interval: u128) -> (line: ReportLine)
        ensures
            line == self@.line(op, interval as int),
    {
        ReportLine {
            op,
            ops: operations_per_second(self.count, interval),
            p50: self.percentile(50),
            p95: self.percentile(95),
            p99: self.percentile(99),
            max: self.percentile(100),
        }
    }
}

impl Default for HistogramSnapshot {
    fn default() -> (h: HistogramSnapshot)
        ensures
            h@ == Snapshot::empty(),
    {
        HistogramSnapshot::new()
    }
}

/// Operations per second for `count` operations in `interval` nanoseconds.
pub fn operations_per_second(count: usize, interval: u128) -> (ops: u64)
    ensures
        ops == throughput(count as int, interval as int),
{
    if interval == 0 {
        if count == 0 {
            0
        } else {
            u64::MAX
        }
    } else {
        let scaled: u128 = (count as u128) * NANOS_PER_SEC;
        let rate: u128 = scaled / interval;
        if rate > u64::MAX as u128 {
            u64::MAX
        } else {
            rate as u64
        }
    }
}

/// The cumulative latencies of one kind of operation, which any number of
/// threads add to without a lock.
pub struct SharedHistogram {
    count: AtomicUsize,
    histogram: ::histogram::AtomicHistogram,
}

impl SharedHistogram {
    #[verifier::type_invariant]
    spec fn well_formed(self) -> bool {
        atomic_parameters(self.histogram) == (GROUPING_POWER, MAX_VALUE_POWER)
    }

    /// The number of linear sub-buckets per power of two that this histogram
    /// was made with, as a power of two.
    pub closed spec fn grouping_power(&self) -> u8 {
        atomic_parameters(self.histogram).0
    }

    /// The largest value that this histogram was made to hold, as a power of
    /// two.
    pub closed spec fn max_value_power(&self) -> u8 {
        atomic_parameters(self.histogram).1
    }

    /// A histogram with nothing recorded, of `GROUPING_POWER` and
    /// `MAX_VALUE_POWER`.
    pub fn new() -> (h: SharedHistogram)
        ensures
            h.grouping_power() == GROUPING_POWER,
            h.max_value_power() == MAX_VALUE_POWER,
    {
        let made = atomic_new(GROUPING_POWER, MAX_VALUE_POWER);
        SharedHistogram { count: AtomicUsize::new(0), histogram: made.unwrap() }
    }

    /// Records one operation that took `us` microseconds: one more in the
    /// count, and one more in the bucket of `us`. Every `u64` has a bucket, so
    /// this never fails.
    pub fn add(&self, us: u64) {
        proof {
            use_type_invariant(self);
        }
        self.count.fetch_add(1, Ordering::Relaxed);
        let taken = atomic_increment(&self.histogram, us);
        assert(taken);
    }

    /// A snapshot of what has been recorded so far.
    pub fn load(&self) -> (h: HistogramSnapshot)
        ensures
            h@.buckets.len() == BUCKETS,
    {
        proof {
            use_type_invariant(self);
            lemma_bucket_total();
        }
        HistogramSnapshot { count: self.count.load(Ordering::Relaxed), histogram: atomic_load(&self.histogram) }
    }
}

impl Default for SharedHistogram {
    fn default() -> SharedHistogram {
        SharedHistogram::new()
    }
}

} // verus!
