//! The synthetic keyspace: fixed-width keys derived from draws, and random
//! values to go with them.

use crate::generator::{AnyGenerator, Distribution, Generator};
use crate::key::{key_bytes, write_key};
use rand::Rng;
use vstd::prelude::*;

verus! {

/// The shape of a dataset.
#[derive(Clone, Copy, Debug, PartialEq, Eq, Structural)]
pub struct Options {
    /// The length of each key, in bytes.
    pub klen: usize,
    /// The length of each value, in bytes.
    pub vlen: usize,
    /// The number of distinct keys.
    pub num_records: usize,
    /// How the keys that operations touch are distributed.
    pub distribution: Distribution,
}

impl Options {
    /// Whether a dataset can have this shape: keys have at least one byte, and
    /// there is at least one key.
    pub open spec fn valid(&self) -> bool {
        self.klen >= 1 && self.num_records >= 1
    }

    /// Decides `valid`.
    pub fn is_valid(&self) -> (ok: bool)
        ensures
            ok == self.valid(),
    {
        self.klen >= 1 && self.num_records >= 1
    }
}

impl Default for Options {
    /// A thousand uniformly drawn keys of 10 bytes, with values of 100 bytes.
    fn default() -> (o: Options)
        ensures
            o == (Options { klen: 10, vlen: 100, num_records: 1000, distribution: Distribution::Uniform }),
    {
        Options { klen: 10, vlen: 100, num_records: 1000, distribution: Distribution::Uniform }
    }
}

/// `Rng::fill` of the thread's generator on a buffer: every byte is drawn
/// anew, and the length stays.
#[verifier::external_body]
fn fill_random(v: &mut Vec<u8>)
    ensures
        final(v)@.len() == old(v)@.len(),
{
    rand::rng().fill(&mut v[..]);
}

/// A keyspace of `num_records` keys, and the generator that says which key
/// comes next.
pub struct Dataset {
    options: Options,
    generator: AnyGenerator,
}

impl Dataset {
    #[verifier::type_invariant]
    spec fn well_formed(self) -> bool {
        self.options.valid() && self.generator.distribution() == self.options.distribution
    }

    /// The shape of this dataset.
    pub closed spec fn options(&self) -> Options {
        self.options
    }

    /// The dataset of the given shape. `ranks` is the skewed source that a
    /// Zipfian distribution scatters; other distributions leave it alone.
    pub fn new(options: Options, ranks: Box<dyn Generator>) -> (d: Dataset)
        requires
            options.valid(),
        ensures
            d.options() == options,
    {
        let generator = options.distribution.new_generator(ranks);
        Dataset { options, generator }
    }

    /// Whether `k` is the key of one of the records of this dataset.
    pub open spec fn holds_key(&self, k: Seq<u8>) -> bool {
        exists|x: u64| x < self.options().num_records && k == key_bytes(x, self.options().klen as nat)
    }

    /// The number of the record that a draw stands for.
    pub open spec fn record_of(&self, draw: u64) -> u64 {
        (draw % self.options().num_records as u64) as u64
    }

    /// Writes the key of the record that `draw` stands for into `k`.
    pub fn key(&self, draw: u64, k: &mut Vec<u8>)
        ensures
            self.options().valid(),
            self.record_of(draw) < self.options().num_records,
            final(k)@ == key_bytes(self.record_of(draw), self.options().klen as nat),
            final(k)@.len() == self.options().klen,
    {
        proof {
            use_type_invariant(self);
        }
        let x = draw % (self.options.num_records as u64);
        write_key(x, self.options.klen, k);
    }

    /// Writes the key of the next record into `k`: the generator draws, and the
    /// draw picks the record.
    pub fn next(&self, k: &mut Vec<u8>)
        ensures
            self.options().valid(),
            self.holds_key(final(k)@),
            final(k)@.len() == self.options().klen,
    {
        let draw = self.generator.next();
        self.key(draw, k);
        proof {
            assert(self.record_of(draw) < self.options().num_records);
        }
    }

    /// Writes the key of the next record into `k`, and a fresh random value of
    /// `vlen` bytes into `v`.
    pub fn next_record(&self, k: &mut Vec<u8>, v: &mut Vec<u8>)
        ensures
            self.options().valid(),
            self.holds_key(final(k)@),
            final(k)@.len() == self.options().klen,
            final(v)@.len() == self.options().vlen,
    {
        self.next(k);
        v.resize(self.options.vlen, 0);
        fill_random(v);
    }
}

} // verus!
