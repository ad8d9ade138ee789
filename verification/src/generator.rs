//! Sources of the draws from which keys are derived.

use crate::key::be_bytes;
use fnv::FnvHasher;
use rand::Rng;
use rand_distr::StandardUniform;
use std::hash::Hasher;
use std::sync::atomic::AtomicU64;
use std::sync::atomic::Ordering;
use vstd::prelude::*;

verus! {

/// The number of ranks of the skewed source that a Zipfian generator scatters.
pub const ZIPFIAN_RANKS: u64 = 10_000_000_000;

/// The skew of that source: the exponent of Zipf's law, in hundredths.
pub const ZIPFIAN_SKEW_PERCENT: u8 = 99;

/// A source of draws, which any number of threads may draw from at once.
pub trait Generator: Send + Sync {
    /// The next draw.
    fn next(&self) -> u64;
}

/// `Rng::sample` of the thread's generator on `rand_distr::StandardUniform`:
/// any `u64`.
#[verifier::external_body]
fn sample_uniform() -> u64 {
    rand::rng().sample(StandardUniform)
}

/// The 64-bit FNV-1a hash of a sequence of bytes: from the offset basis, each
/// byte in turn is mixed in by exclusive or, and the result multiplied by the
/// FNV prime, modulo `2^64`.
pub open spec fn fnv1a(bytes: Seq<u8>) -> u64
    decreases bytes.len(),
{
    if bytes.len() == 0 {
        0xcbf2_9ce4_8422_2325
    } else {
        (((fnv1a(bytes.drop_last()) ^ (bytes.last() as u64)) * 0x100_0000_01b3)
            % 0x1_0000_0000_0000_0000) as u64
    }
}

/// Whether `x` is what scattering makes of `rank`: the FNV-1a hash of the
/// eight bytes of `rank` in the byte order of the machine, which is the most
/// significant byte first or the least significant byte first.
pub open spec fn scatters(rank: u64, x: u64) -> bool {
    x == fnv1a(be_bytes(rank)) || x == fnv1a(be_bytes(rank).reverse())
}

/// `u64::to_ne_bytes`: the bytes of a number in the byte order of the machine.
#[verifier::external_body]
fn machine_bytes(x: u64) -> (bytes: [u8; 8])
    ensures
        bytes@ == be_bytes(x) || bytes@ == be_bytes(x).reverse(),
{
    x.to_ne_bytes()
}

/// `fnv::FnvHasher` on a sequence of bytes: a hasher in its default state is
/// fed the bytes and asked for the hash, which is their FNV-1a hash.
#[verifier::external_body]
fn fnv_hash(bytes: &[u8]) -> (hash: u64)
    ensures
        hash == fnv1a(bytes@),
{
    let mut hasher = FnvHasher::default();
    hasher.write(bytes);
    hasher.finish()
}

/// Scatters a rank over all of `u64`: its FNV-1a hash.
pub fn scatter(rank: u64) -> (x: u64)
    ensures
        scatters(rank, x),
{
    let bytes = machine_bytes(rank);
    fnv_hash(bytes.as_slice())
}

/// Draws uniformly from all of `u64`.
pub struct UniformGenerator {}

impl UniformGenerator {
    pub fn new() -> UniformGenerator {
        UniformGenerator {}
    }
}

impl Generator for UniformGenerator {
    fn next(&self) -> u64 {
        sample_uniform()
    }
}

/// Draws with a skew: the ranks of a skewed source, each hashed, so that the
/// ranks drawn most often do not stand next to each other in the domain.
pub struct ZipfianGenerator<R: Generator + ?Sized = dyn Generator> {
    ranks: Box<R>,
}

impl<R: Generator + ?Sized> ZipfianGenerator<R> {
    /// The skewed source whose ranks this generator scatters.
    pub closed spec fn source(&self) -> Box<R> {
        self.ranks
    }

    /// A generator that scatters the draws of `ranks`.
    pub fn new(ranks: Box<R>) -> (g: ZipfianGenerator<R>)
        ensures
            g.source() == ranks,
    {
        ZipfianGenerator { ranks }
    }
}

impl<R: Generator + ?Sized> Generator for ZipfianGenerator<R> {
    /// The next draw: the source draws a rank, and the draw is what scattering
    /// makes of it.
    fn next(&self) -> (x: u64)
        ensures
            exists|rank: u64| scatters(rank, x),
    {
        let rank = self.ranks.next();
        scatter(rank)
    }
}

/// Draws 0, 1, 2 and so on: each draw, by whichever thread, takes the current
/// value of one counter and leaves it one higher.
pub struct SequentialGenerator {
    count: AtomicU64,
}

impl SequentialGenerator {
    /// A generator whose first draw is 0.
    pub fn new() -> SequentialGenerator {
        SequentialGenerator { count: AtomicU64::new(0) }
    }
}

impl Generator for SequentialGenerator {
    fn next(&self) -> u64 {
        self.count.fetch_add(1, Ordering::Relaxed)
    }
}

/// The distribution of the draws of a dataset.
#[derive(Clone, Copy, Debug, PartialEq, Eq, Structural)]
pub enum Distribution {
    Uniform,
    Zipfian,
    Sequential,
}

/// A generator of one of the distributions.
pub enum AnyGenerator {
    Uniform(UniformGenerator),
    Zipfian(ZipfianGenerator),
    Sequential(SequentialGenerator),
}

impl AnyGenerator {
    /// The distribution that this generator draws from.
    pub open spec fn distribution(&self) -> Distribution {
        match self {
            AnyGenerator::Uniform(_) => Distribution::Uniform,
            AnyGenerator::Zipfian(_) => Distribution::Zipfian,
            AnyGenerator::Sequential(_) => Distribution::Sequential,
        }
    }
}

impl Generator for AnyGenerator {
    /// The next draw of the generator held. That of a Zipfian generator is
    /// what scattering makes of a rank.
    fn next(&self) -> (x: u64)
        ensures
            self is Zipfian ==> exists|rank: u64| scatters(rank, x),
    {
        match self {
            AnyGenerator::Uniform(g) => g.next(),
            AnyGenerator::Zipfian(g) => g.next(),
            AnyGenerator::Sequential(g) => g.next(),
        }
    }
}

impl Distribution {
    /// A new generator of this distribution. `ranks` is the skewed source that
    /// a Zipfian generator scatters; the others do not draw from it.
    pub fn new_generator(&self, ranks: Box<dyn Generator>) -> (g: AnyGenerator)
        ensures
            g.distribution() == *self,
    {
        match self {
            Distribution::Uniform => AnyGenerator::Uniform(UniformGenerator::new()),
            Distribution::Zipfian => AnyGenerator::Zipfian(ZipfianGenerator::new(ranks)),
            Distribution::Sequential => AnyGenerator::Sequential(SequentialGenerator::new()),
        }
    }
}

} // verus!
