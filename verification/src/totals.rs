//! The statistics of a run as mathematics: what recording an operation makes
//! of them, and what holds of every state that recordings lead to, in
//! whatever order the workers record.

use crate::latency::{covers, sum, zeros, Snapshot, BUCKETS};
use crate::workload::Operation;
use vstd::prelude::*;

verus! {

/// One recorded operation: its kind, whether it succeeded, and the bucket that
/// its latency falls into.
pub struct Recording {
    pub op: Operation,
    pub ok: bool,
    pub bucket: int,
}

impl Recording {
    /// Whether the bucket is one of a histogram.
    pub open spec fn valid(self) -> bool {
        0 <= self.bucket < BUCKETS
    }
}

/// Whether every recording of a sequence is valid, and the sequence short
/// enough for no counter to wrap.
pub open spec fn recordable(recordings: Seq<Recording>) -> bool {
    &&& recordings.len() <= u64::MAX
    &&& forall|i: int| 0 <= i < recordings.len() ==> (#[trigger] recordings[i]).valid()
}

/// The number of failed operations among the recordings.
pub open spec fn failures(recordings: Seq<Recording>) -> nat
    decreases recordings.len(),
{
    if recordings.len() == 0 {
        0
    } else if recordings.last().ok {
        failures(recordings.drop_last())
    } else {
        failures(recordings.drop_last()) + 1
    }
}

/// A snapshot with one more operation recorded, in the given bucket.
pub open spec fn one_more(s: Snapshot, bucket: int) -> Snapshot {
    Snapshot { count: s.count + 1, buckets: s.buckets.update(bucket, (s.buckets[bucket] + 1) as u64) }
}

/// What the statistics hold at one moment: the total of operations, the
/// failures among them, and the latencies of each kind of operation.
pub struct Totals {
    pub count: nat,
    pub failure: nat,
    pub read: Snapshot,
    pub scan: Snapshot,
    pub write: Snapshot,
}

impl Totals {
    /// The statistics of a run in which nothing has been recorded.
    pub open spec fn initial() -> Totals {
        Totals {
            count: 0,
            failure: 0,
            read: Snapshot::empty(),
            scan: Snapshot::empty(),
            write: Snapshot::empty(),
        }
    }

    /// The latencies of one kind of operation.
    pub open spec fn snapshot(self, op: Operation) -> Snapshot {
        match op {
            Operation::Read => self.read,
            Operation::Scan => self.scan,
            Operation::Write => self.write,
        }
    }

    /// What one recording makes of the statistics: the total goes up by one;
    /// a success goes into the histogram of its kind, and a failure into the
    /// failures and into no histogram.
    pub open spec fn recorded(self, r: Recording) -> Totals {
        if !r.ok {
            Totals { count: self.count + 1, failure: self.failure + 1, ..self }
        } else {
            match r.op {
                Operation::Read => Totals { count: self.count + 1, read: one_more(self.read, r.bucket), ..self },
                Operation::Scan => Totals { count: self.count + 1, scan: one_more(self.scan, r.bucket), ..self },
                Operation::Write => Totals { count: self.count + 1, write: one_more(self.write, r.bucket), ..self },
            }
        }
    }

    /// What a sequence of recordings makes of the statistics.
    pub open spec fn after(self, recordings: Seq<Recording>) -> Totals
        decreases recordings.len(),
    {
        if recordings.len() == 0 {
            self
        } else {
            self.after(recordings.drop_last()).recorded(recordings.last())
        }
    }

    /// The number of operations in the histograms.
    pub open spec fn successes(self) -> nat {
        self.read.count + self.scan.count + self.write.count
    }

    /// Whether the books balance: every operation is either a failure or in
    /// the histogram of its kind, where it is in one bucket.
    pub open spec fn balanced(self) -> bool {
        &&& self.count == self.failure + self.successes()
        &&& forall|op: Operation| (#[trigger] self.snapshot(op)).consistent()
        &&& forall|op: Operation| (#[trigger] self.snapshot(op)).buckets.len() == BUCKETS
    }
}

/// No counter is more than the sum of all.
proof fn lemma_counter_within_sum(counts: Seq<u64>, i: int)
    requires
        0 <= i < counts.len(),
    ensures
        counts[i] <= sum(counts),
    decreases counts.len(),
{
    if i < counts.len() - 1 {
        lemma_counter_within_sum(counts.drop_last(), i);
    }
}

/// The sum of zeros is zero.
proof fn lemma_sum_of_zeros(n: nat)
    ensures
        sum(zeros(n)) == 0,
    decreases n,
{
    if n > 0 {
        lemma_sum_of_zeros((n - 1) as nat);
        assert(zeros(n).drop_last() =~= zeros((n - 1) as nat));
    }
}

/// One more in a counter is one more in the sum.
proof fn lemma_sum_of_update(counts: Seq<u64>, i: int, value: u64)
    requires
        0 <= i < counts.len(),
    ensures
        sum(counts.update(i, value)) == sum(counts) - counts[i] + value,
    decreases counts.len(),
{
    let updated = counts.update(i, value);
    if i < counts.len() - 1 {
        lemma_sum_of_update(counts.drop_last(), i, value);
        assert(updated.drop_last() =~= counts.drop_last().update(i, value));
    } else {
        assert(updated.drop_last() =~= counts.drop_last());
    }
}

/// One more operation in a consistent snapshot with room in its counters
/// leaves a consistent snapshot, which can have been taken after the first.
proof fn lemma_one_more(s: Snapshot, bucket: int)
    requires
        s.consistent(),
        0 <= bucket < s.buckets.len(),
        s.count < u64::MAX,
    ensures
        one_more(s, bucket).consistent(),
        one_more(s, bucket).dominates(s),
        one_more(s, bucket).buckets.len() == s.buckets.len(),
{
    lemma_counter_within_sum(s.buckets, bucket);
    lemma_sum_of_update(s.buckets, bucket, (s.buckets[bucket] + 1) as u64);
}

/// The books balance after any recordings, and the total is their number.
proof fn lemma_balanced(recordings: Seq<Recording>)
    requires
        recordable(recordings),
    ensures
        Totals::initial().after(recordings).balanced(),
        Totals::initial().after(recordings).count == recordings.len(),
        Totals::initial().after(recordings).failure == failures(recordings),
    decreases recordings.len(),
{
    if recordings.len() == 0 {
        lemma_sum_of_zeros(BUCKETS as nat);
    } else {
        let before = Totals::initial().after(recordings.drop_last());
        let r = recordings.last();
        lemma_balanced(recordings.drop_last());
        assert(r.valid());
        if r.ok {
            assert(before.snapshot(r.op).consistent());
            assert(before.snapshot(r.op).buckets.len() == BUCKETS);
            lemma_one_more(before.snapshot(r.op), r.bucket);
        }
        let now = before.recorded(r);
        assert forall|op: Operation| (#[trigger] now.snapshot(op)).consistent() && now.snapshot(
            op,
        ).buckets.len() == BUCKETS by {
            assert(before.snapshot(op).consistent());
            assert(before.snapshot(op).buckets.len() == BUCKETS);
        }
    }
}

/// Failure accounting. After any recordings, in whatever order, the total is
/// their number, the failures are the failed ones among them, and the
/// counters of the three histograms sum to the number of those that
/// succeeded.
pub proof fn lemma_failure_accounting(recordings: Seq<Recording>)
    requires
        recordable(recordings),
    ensures
        ({
            let totals = Totals::initial().after(recordings);
            &&& totals.count == recordings.len()
            &&& totals.failure == failures(recordings)
            &&& totals.failure <= totals.count
            &&& sum(totals.read.buckets) + sum(totals.scan.buckets) + sum(totals.write.buckets)
                == totals.count - totals.failure
            &&& totals.read.count + totals.scan.count + totals.write.count == totals.count
                - totals.failure
        }),
{
    lemma_balanced(recordings);
    let totals = Totals::initial().after(recordings);
    assert(totals.snapshot(Operation::Read).consistent());
    assert(totals.snapshot(Operation::Scan).consistent());
    assert(totals.snapshot(Operation::Write).consistent());
}

/// Histograms only grow. Whatever is recorded after a snapshot was taken, a
/// later snapshot of the same kind of operation has no lower count and no
/// lower counter, so that the earlier one can be subtracted from it.
pub proof fn lemma_histograms_grow(earlier: Seq<Recording>, more: Seq<Recording>, op: Operation)
    requires
        recordable(earlier + more),
    ensures
        Totals::initial().after(earlier + more).snapshot(op).dominates(
            Totals::initial().after(earlier).snapshot(op),
        ),
        Totals::initial().after(earlier + more).count >= Totals::initial().after(earlier).count,
        Totals::initial().after(earlier + more).failure >= Totals::initial().after(earlier).failure,
    decreases more.len(),
{
    let start = Totals::initial().after(earlier);
    if more.len() == 0 {
        assert(earlier + more =~= earlier);
        lemma_balanced(earlier);
        assert(start.snapshot(op).buckets.len() == BUCKETS);
    } else {
        let all = earlier + more;
        let shorter = earlier + more.drop_last();
        assert(all.drop_last() =~= shorter);
        assert(all.last() == more.last());
        assert(recordable(shorter)) by {
            assert forall|i: int| 0 <= i < shorter.len() implies (#[trigger] shorter[i]).valid() by {
                assert(shorter[i] == all[i]);
            }
        }
        lemma_histograms_grow(earlier, more.drop_last(), op);
        lemma_balanced(shorter);
        let before = Totals::initial().after(shorter);
        let r = more.last();
        assert(r.valid()) by {
            assert(all[all.len() - 1].valid());
        }
        if r.ok {
            assert(before.snapshot(r.op).consistent());
            assert(before.snapshot(r.op).buckets.len() == BUCKETS);
            lemma_one_more(before.snapshot(r.op), r.bucket);
        }
        assert(before.snapshot(op).buckets.len() == BUCKETS);
        assert(before.recorded(r).snapshot(op).dominates(before.snapshot(op)));
    }
}

} // verus!
