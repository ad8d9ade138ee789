//! A run of the benchmark: the context that its workers share, the budget of
//! operations that they draw on, and what one worker does.

use crate::dataset::Dataset;
use crate::db::Database;
use crate::report::Report;
use crate::statistics::{Statistics, Underflow};
use crate::workload::{Operation, Workload};
use std::sync::atomic::AtomicUsize;
use std::sync::atomic::Ordering;
use vstd::prelude::*;

verus! {

/// The number of steps of each scan.
pub const SCAN_WINDOW: usize = 10;

/// Whether a budget of `max` operations admits the operation that drew
/// `ticket`. Tickets are drawn from one counter, so each is drawn once.
pub open spec fn admits(max: usize, ticket: usize) -> bool {
    ticket < max
}

/// How many of the tickets `0`, `1`, ... up to `issued - 1` a budget of `max`
/// operations admits.
pub open spec fn admitted(max: usize, issued: nat) -> nat
    decreases issued,
{
    if issued == 0 {
        0
    } else if admits(max, (issued - 1) as usize) {
        admitted(max, (issued - 1) as nat) + 1
    } else {
        admitted(max, (issued - 1) as nat)
    }
}

/// Of the first `issued` tickets, all are admitted up to `max` of them, and
/// none from there on.
proof fn lemma_admitted(max: usize, issued: nat)
    requires
        issued <= usize::MAX,
    ensures
        admitted(max, issued) == if issued <= max { issued } else { max as nat },
    decreases issued,
{
    if issued > 0 {
        lemma_admitted(max, (issued - 1) as nat);
    }
}

/// The budget bounds the work: however many tickets are drawn, no more than
/// `max` are admitted, and all `max` are once that many are drawn. With
/// `workers` workers, each of which stops at its first ticket that is not
/// admitted, `max + workers` tickets are drawn in all, and exactly `max`
/// operations run.
pub proof fn lemma_budget_bound(max: usize, issued: nat, workers: nat)
    requires
        issued <= usize::MAX,
        max + workers <= usize::MAX,
    ensures
        admitted(max, issued) <= max,
        issued >= max ==> admitted(max, issued) == max,
        issued <= max ==> admitted(max, issued) == issued,
        admitted(max, (max + workers) as nat) == max,
{
    lemma_admitted(max, issued);
    lemma_admitted(max, (max + workers) as nat);
}

/// What one step of a worker came to.
#[derive(Clone, Copy, Debug, PartialEq, Eq, Structural)]
pub enum Step {
    /// The budget is used up: nothing ran, and nothing will.
    Done,
    /// One operation of the given kind ran and was recorded; with it comes the
    /// interval report, if one was made after it.
    Ran(Operation, Option<Report>),
}

/// A benchmark that is ready to run: a backend, the keys to touch, and the
/// mix of operations.
pub struct Runtime {
    db: Box<dyn Database>,
    dataset: Dataset,
    workload: Workload,
}

impl Runtime {
    /// The dataset of this benchmark.
    pub closed spec fn dataset(&self) -> Dataset {
        self.dataset
    }

    /// The workload of this benchmark.
    pub closed spec fn workload(&self) -> Workload {
        self.workload
    }

    pub fn new(db: Box<dyn Database>, dataset: Dataset, workload: Workload) -> (r: Runtime)
        ensures
            r.dataset() == dataset,
            r.workload() == workload,
    {
        Runtime { db, dataset, workload }
    }

    /// The context of a run of `num_operations` operations, for any number of
    /// workers to share.
    pub fn start(self, num_operations: usize) -> (c: Context)
        ensures
            c.dataset() == self.dataset(),
            c.workload() == self.workload(),
            c.max_operations() == num_operations,
    {
        Context::new(self.db, self.dataset, self.workload, num_operations)
    }
}

/// What the workers of one run share: the backend, the dataset, the workload,
/// the statistics, and the budget of operations with the counter that hands
/// out its tickets.
pub struct Context {
    db: Box<dyn Database>,
    dataset: Dataset,
    workload: Workload,
    statistics: Statistics,
    max_operations: usize,
    num_operations: AtomicUsize,
}

impl Context {
    /// The dataset of this run.
    pub closed spec fn dataset(&self) -> Dataset {
        self.dataset
    }

    /// The workload of this run.
    pub closed spec fn workload(&self) -> Workload {
        self.workload
    }

    /// The budget of this run.
    pub closed spec fn max_operations(&self) -> usize {
        self.max_operations
    }

    /// The context of a run of `max_operations` operations, of which none has
    /// been drawn, with fresh statistics.
    pub fn new(db: Box<dyn Database>, dataset: Dataset, workload: Workload, max_operations: usize) -> (c: Context)
        ensures
            c.dataset() == dataset,
            c.workload() == workload,
            c.max_operations() == max_operations,
    {
        Context {
            db,
            dataset,
            workload,
            statistics: Statistics::new(),
            max_operations,
            num_operations: AtomicUsize::new(0),
        }
    }

    /// The statistics of this run.
    pub closed spec fn spec_statistics(&self) -> &Statistics {
        &self.statistics
    }

    /// The statistics of this run, which its workers record into.
    #[verifier::when_used_as_spec(spec_statistics)]
    pub fn statistics(&self) -> (s: &Statistics)
        ensures
            s == self.spec_statistics(),
    {
        &self.statistics
    }

    /// Decides on a ticket: nothing if the budget does not admit it, and else
    /// the kind of operation to run, drawn from the workload.
    pub fn decide(&self, ticket: usize) -> (next: Option<Operation>)
        ensures
            next.is_some() <==> admits(self.max_operations(), ticket),
            next matches Some(op) ==> self.workload().weight(op) > 0,
    {
        if ticket >= self.max_operations {
            None
        } else {
            Some(self.workload.next())
        }
    }

    /// Draws the next ticket from the shared counter, which goes up by one,
    /// and decides on it as `decide` does. Which ticket is drawn depends on the
    /// other workers, so a worker may be told at any time that the budget is
    /// used up; of an empty budget every worker is told so at once.
    pub fn next_operation(&self) -> (next: Option<Operation>)
        ensures
            self.max_operations() == 0 ==> next.is_none(),
            next matches Some(op) ==> self.workload().weight(op) > 0,
    {
        let current = self.num_operations.fetch_add(1, Ordering::Relaxed);
        self.decide(current)
    }

    /// Runs one operation of kind `op` on the backend and records it: a read
    /// or a scan of `SCAN_WINDOW` steps at the key of the next record, or a
    /// write of a fresh random value under it. `k` holds that key afterwards;
    /// `v` holds the value of a write, and is left alone otherwise. With the
    /// result comes the interval report, if one was made.
    pub fn perform(&self, op: Operation, k: &mut Vec<u8>, v: &mut Vec<u8>) -> (r: Result<Option<Report>, Underflow>)
        ensures
            self.dataset().options().valid(),
            self.dataset().holds_key(final(k)@),
            op == Operation::Write ==> final(v)@.len() == self.dataset().options().vlen,
            op != Operation::Write ==> final(v)@ == old(v)@,
    {
        match op {
            Operation::Read => {
                self.dataset.next(k);
                self.statistics.record(op, || -> (r: Result<bool, crate::db::BackendError>) { self.db.read(k.as_slice()) })
            },
            Operation::Scan => {
                self.dataset.next(k);
                self.statistics.record(op, || -> (r: Result<(), crate::db::BackendError>) { self.db.scan(k.as_slice(), SCAN_WINDOW) })
            },
            Operation::Write => {
                self.dataset.next_record(k, v);
                self.statistics.record(op, || -> (r: Result<(), crate::db::BackendError>) { self.db.write(k.as_slice(), v.as_slice()) })
            },
        }
    }

    /// One step of a worker: draws a ticket, and runs and records one
    /// operation if the budget admits it.
    pub fn step(&self, k: &mut Vec<u8>, v: &mut Vec<u8>) -> (r: Result<Step, Underflow>)
        ensures
            self.max_operations() == 0 ==> r == Ok::<Step, Underflow>(Step::Done),
            r == Ok::<Step, Underflow>(Step::Done) ==> final(k)@ == old(k)@ && final(v)@ == old(v)@,
            r matches Ok(Step::Ran(op, _)) ==> {
                &&& self.workload().weight(op) > 0
                &&& self.dataset().holds_key(final(k)@)
                &&& op == Operation::Write ==> final(v)@.len() == self.dataset().options().vlen
                &&& op != Operation::Write ==> final(v)@ == old(v)@
            },
    {
        match self.next_operation() {
            None => Ok(Step::Done),
            Some(op) => match self.perform(op, k, v) {
                Ok(report) => Ok(Step::Ran(op, report)),
                Err(e) => Err(e),
            },
        }
    }

    /// What one worker does: steps until the budget is used up, and hands each
    /// interval report that its steps make to `emit`. A worker is admitted at
    /// most `max_operations` times, which bounds its steps.
    pub fn run<F: Fn(Report)>(&self, emit: F) -> (r: Result<(), Underflow>)
        requires
            forall|report: Report| emit.requires((report,)),
        ensures
            self.max_operations() == 0 ==> r.is_ok(),
    {
        let mut k: Vec<u8> = Vec::new();
        let mut v: Vec<u8> = Vec::new();
        let mut left: usize = self.max_operations;
        loop
            invariant
                forall|report: Report| emit.requires((report,)),
            decreases left,
        {
            match self.step(&mut k, &mut v) {
                Ok(Step::Done) => {
                    return Ok(());
                },
                Ok(Step::Ran(_, report)) => {
                    match report {
                        Some(report) => {
                            emit(report);
                        },
                        None => {},
                    }
                },
                Err(e) => {
                    return Err(e);
                },
            }
            if left == 0 {
                return Ok(());
            }
            left = left - 1;
        }
    }
}

} // verus!
