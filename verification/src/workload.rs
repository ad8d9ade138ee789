//! The workload mixer: which kind of operation comes next.

use rand::distr::weighted::WeightedIndex;
use rand::Rng;
use vstd::prelude::*;

verus! {

/// The kinds of operation that a benchmark issues.
#[derive(Clone, Copy, Debug, PartialEq, Eq, Structural)]
pub enum Operation {
    Read,
    Scan,
    Write,
}

impl Operation {
    /// How many kinds there are.
    pub const COUNT: usize = 3;

    /// The stable ordinal of a kind: `Read` is 0, `Scan` is 1, `Write` is 2.
    pub open spec fn spec_index(self) -> usize {
        match self {
            Operation::Read => 0,
            Operation::Scan => 1,
            Operation::Write => 2,
        }
    }

    /// The kind that has the ordinal `value`. Ordinals from `COUNT` on name no kind.
    pub open spec fn spec_from(value: usize) -> Operation {
        if value == 0 {
            Operation::Read
        } else if value == 1 {
            Operation::Scan
        } else {
            Operation::Write
        }
    }

    /// The ordinal of this kind, to index per-kind arrays with.
    #[verifier::when_used_as_spec(spec_index)]
    pub fn index(self) -> (i: usize)
        ensures
            i == self.spec_index(),
            i < Self::COUNT,
            Self::spec_from(i) == self,
    {
        match self {
            Operation::Read => 0,
            Operation::Scan => 1,
            Operation::Write => 2,
        }
    }

    /// The kind with the given ordinal.
    #[verifier::when_used_as_spec(spec_from)]
    pub fn from(value: usize) -> (op: Operation)
        requires
            value < Self::COUNT,
        ensures
            op == Self::spec_from(value),
            op.spec_index() == value,
    {
        if value == 0 {
            Operation::Read
        } else if value == 1 {
            Operation::Scan
        } else {
            Operation::Write
        }
    }

    /// The name of this kind, as reports print it.
    pub fn name(self) -> (s: &'static str)
        ensures
            s@ == self.spec_name(),
    {
        match self {
            Operation::Read => "Read",
            Operation::Scan => "Scan",
            Operation::Write => "Write",
        }
    }

    /// The name of a kind as a sequence of characters.
    pub open spec fn spec_name(self) -> Seq<char> {
        match self {
            Operation::Read => "Read"@,
            Operation::Scan => "Scan"@,
            Operation::Write => "Write"@,
        }
    }
}

/// Ordinals and kinds correspond one to one: going from a kind to its ordinal and
/// back gives the kind, going from an ordinal below `COUNT` to its kind and back
/// gives the ordinal, and two kinds with one ordinal are the same kind.
pub proof fn lemma_ordinal_bijection(a: Operation, b: Operation, i: usize)
    ensures
        Operation::spec_from(a.spec_index()) == a,
        i < Operation::COUNT ==> Operation::spec_from(i).spec_index() == i,
        a.spec_index() == b.spec_index() ==> a == b,
        a.spec_index() < Operation::COUNT,
{
}

/// The relative weights of the three kinds of operation.
#[derive(Clone, Copy, Debug, PartialEq, Eq, Structural)]
pub struct Options {
    pub read_ratio: u32,
    pub scan_ratio: u32,
    pub write_ratio: u32,
}

impl Options {
    /// The weights for populating a store: writes only.
    pub fn new_for_load() -> (o: Options)
        ensures
            o.read_ratio == 0,
            o.scan_ratio == 0,
            o.write_ratio == 1,
    {
        Options { read_ratio: 0, scan_ratio: 0, write_ratio: 1 }
    }

    /// The weights in the order of the ordinals.
    pub open spec fn weights(self) -> Seq<u64> {
        seq![self.read_ratio as u64, self.scan_ratio as u64, self.write_ratio as u64]
    }

    /// The sum of the three weights.
    pub open spec fn total(self) -> nat {
        (self.read_ratio + self.scan_ratio + self.write_ratio) as nat
    }

    /// The weight given to one kind.
    pub open spec fn weight(self, op: Operation) -> u32 {
        match op {
            Operation::Read => self.read_ratio,
            Operation::Scan => self.scan_ratio,
            Operation::Write => self.write_ratio,
        }
    }

    /// Whether a workload can be drawn from these weights: not all are zero.
    pub fn is_valid(&self) -> (ok: bool)
        ensures
            ok == (self.total() > 0),
    {
        self.read_ratio > 0 || self.scan_ratio > 0 || self.write_ratio > 0
    }
}

impl Default for Options {
    /// Ninety-five reads to five writes, no scans.
    fn default() -> (o: Options)
        ensures
            o.read_ratio == 95,
            o.scan_ratio == 0,
            o.write_ratio == 5,
    {
        Options { read_ratio: 95, scan_ratio: 0, write_ratio: 5 }
    }
}

/// A `rand::distr::weighted::WeightedIndex` over `u64` weights.
#[verifier::external_body]
pub struct WeightedSampler {
    inner: WeightedIndex<u64>,
}

/// The weights that a sampler was made with, by index.
pub uninterp spec fn sampler_weights(sampler: WeightedSampler) -> Seq<u64>;

/// `WeightedIndex::new` on three weights. It succeeds when the weights do not
/// all vanish and their sum fits in `u64`, and the sampler then holds these
/// weights.
#[verifier::external_body]
fn weighted_sampler(weights: [u64; 3]) -> (r: Option<WeightedSampler>)
    ensures
        r.is_some() <==> 0 < weights[0] + weights[1] + weights[2] <= u64::MAX,
        r matches Some(sampler) ==> sampler_weights(sampler) == weights@,
{
    WeightedIndex::new(weights).ok().map(|inner| WeightedSampler { inner })
}

/// `Rng::sample` of the thread's generator on a `WeightedIndex`. The index
/// drawn is one of the weights', and never one whose weight is zero.
#[verifier::external_body]
fn sample_weighted(sampler: &WeightedSampler) -> (i: usize)
    ensures
        i < sampler_weights(*sampler).len(),
        sampler_weights(*sampler)[i as int] > 0,
{
    rand::rng().sample(&sampler.inner)
}

/// A weighted categorical sampler over the kinds of operation.
pub struct Workload {
    dist: WeightedSampler,
}

impl View for Workload {
    type V = Seq<u64>;

    /// The weights of the three kinds, by ordinal.
    closed spec fn view(&self) -> Seq<u64> {
        sampler_weights(self.dist)
    }
}

impl Workload {
    #[verifier::type_invariant]
    spec fn well_formed(self) -> bool {
        sampler_weights(self.dist).len() == Operation::COUNT
    }

    /// The weight of one kind of operation.
    pub open spec fn weight(&self, op: Operation) -> u64 {
        self@[op.spec_index() as int]
    }

    /// A sampler with the given weights, frozen from here on.
    pub fn new(options: Options) -> (w: Workload)
        requires
            options.total() > 0,
        ensures
            w@ == options.weights(),
            forall|op: Operation| w.weight(op) == options.weight(op),
    {
        let weights: [u64; 3] = [
            options.read_ratio as u64,
            options.scan_ratio as u64,
            options.write_ratio as u64,
        ];
        let made = weighted_sampler(weights);
        proof {
            assert(weights@ =~= options.weights());
        }
        Workload { dist: made.unwrap() }
    }

    /// Draws the next kind of operation, with a chance proportional to its
    /// weight. A kind of weight zero is never drawn.
    pub fn next(&self) -> (op: Operation)
        ensures
            self@.len() == Operation::COUNT,
            self.weight(op) > 0,
    {
        proof {
            use_type_invariant(self);
        }
        Operation::from(sample_weighted(&self.dist))
    }
}

} // verus!
