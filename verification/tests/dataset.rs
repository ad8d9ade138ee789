use std::collections::BTreeMap;

use kvbench::dataset::{Dataset, Options};
use kvbench::generator::{Distribution, Generator};
use rand::Rng;
use rand_distr::Zipf;

const NUM_RECORDS: usize = 100;

struct ZipfRanks {
    dist: Zipf<f64>,
}

impl Generator for ZipfRanks {
    fn next(&self) -> u64 {
        rand::rng().sample(self.dist) as u64
    }
}

struct Fixed(u64);

impl Generator for Fixed {
    fn next(&self) -> u64 {
        self.0
    }
}

fn ranks() -> Box<dyn Generator> {
    Box::new(ZipfRanks { dist: Zipf::new(10_000_000_000.0, 0.99).unwrap() })
}

fn test_dataset(options: Options) -> BTreeMap<Vec<u8>, usize> {
    let dataset = Dataset::new(options.clone(), ranks());
    let mut k = Vec::new();
    let mut count = BTreeMap::new();
    for _ in 0..(options.num_records * 10) {
        dataset.next(&mut k);
        assert_eq!(k.len(), options.klen);
        count.entry(k.clone()).and_modify(|c| *c += 1).or_insert(1);
    }
    println!("{count:#?}");
    assert!(count.len() <= options.num_records);
    count
}

fn number_of(k: &[u8]) -> u64 {
    let mut bytes = [0u8; 8];
    if k.len() <= 8 {
        bytes[8 - k.len()..].copy_from_slice(k);
    } else {
        bytes.copy_from_slice(&k[..8]);
    }
    u64::from_be_bytes(bytes)
}

#[test]
fn test_uniform_dataset() {
    let options = Options {
        klen: 4,
        vlen: 100,
        num_records: NUM_RECORDS,
        distribution: Distribution::Uniform,
    };
    let count = test_dataset(options);
    assert!(count.keys().all(|k| number_of(k) < NUM_RECORDS as u64));
}

#[test]
fn test_zipfian_dataset() {
    let options = Options {
        klen: 8,
        vlen: 100,
        num_records: NUM_RECORDS,
        distribution: Distribution::Zipfian,
    };
    let count = test_dataset(options);
    assert!(count.keys().all(|k| number_of(k) < NUM_RECORDS as u64));
}

#[test]
fn test_sequential_dataset() {
    let options = Options {
        klen: 10,
        vlen: 100,
        num_records: NUM_RECORDS,
        distribution: Distribution::Sequential,
    };
    let count = test_dataset(options);
    assert_eq!(count.len(), NUM_RECORDS);
    assert!(count.values().all(|&c| c == 10));
    for (i, k) in count.keys().enumerate() {
        assert_eq!(number_of(k), i as u64);
        assert_eq!(&k[8..], &[0, 0]);
    }
}

#[test]
fn default_options() {
    let o = Options::default();
    assert_eq!((o.klen, o.vlen, o.num_records), (10, 100, 1000));
    assert_eq!(o.distribution, Distribution::Uniform);
    assert!(o.is_valid());
}

#[test]
fn options_without_keys_or_records_are_not_valid() {
    let good = Options { klen: 1, vlen: 0, num_records: 1, distribution: Distribution::Uniform };
    assert!(good.is_valid());
    assert!(!Options { klen: 0, ..good }.is_valid());
    assert!(!Options { num_records: 0, ..good }.is_valid());
}

#[test]
fn key_of_a_draw_is_that_of_its_remainder() {
    let options = Options { klen: 4, vlen: 10, num_records: 100, distribution: Distribution::Sequential };
    let dataset = Dataset::new(options, Box::new(Fixed(0)));
    let mut k = Vec::new();
    dataset.key(7, &mut k);
    assert_eq!(k, vec![0, 0, 0, 7]);
    dataset.key(107, &mut k);
    assert_eq!(k, vec![0, 0, 0, 7]);
    dataset.key(u64::MAX, &mut k);
    assert_eq!(k, vec![0, 0, 0, (u64::MAX % 100) as u8]);
    let mut again = vec![1, 2, 3];
    dataset.key(7, &mut again);
    assert_eq!(again, vec![0, 0, 0, 7]);
}

#[test]
fn next_record_gives_a_fresh_value_of_the_length_asked() {
    let options = Options { klen: 10, vlen: 100, num_records: 1000, distribution: Distribution::Sequential };
    let dataset = Dataset::new(options, Box::new(Fixed(0)));
    let mut k = Vec::new();
    let mut v = Vec::new();
    dataset.next_record(&mut k, &mut v);
    assert_eq!(k, vec![0; 10]);
    assert_eq!(v.len(), 100);
    let first = v.clone();
    dataset.next_record(&mut k, &mut v);
    assert_eq!(k, vec![0, 0, 0, 0, 0, 0, 0, 1, 0, 0]);
    assert_eq!(v.len(), 100);
    assert_ne!(v, first);
    assert!(v.iter().any(|&b| b != 0));
}

#[test]
fn next_record_with_empty_values() {
    let options = Options { klen: 2, vlen: 0, num_records: 3, distribution: Distribution::Sequential };
    let dataset = Dataset::new(options, Box::new(Fixed(0)));
    let mut k = Vec::new();
    let mut v = vec![1, 2, 3];
    let mut keys = Vec::new();
    for _ in 0..4 {
        dataset.next_record(&mut k, &mut v);
        assert!(v.is_empty());
        keys.push(k.clone());
    }
    assert_eq!(keys, vec![vec![0, 0], vec![0, 1], vec![0, 2], vec![0, 0]]);
}
