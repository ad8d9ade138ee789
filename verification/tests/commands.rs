use kvbench::dataset;
use kvbench::db::{self, BackendError, Database, Name};
use kvbench::generator::{Distribution, Generator};
use kvbench::run::{ConfigError, DEFAULT_NUM_OPERATIONS, DEFAULT_NUM_THREADS};
use kvbench::report::Report;
use kvbench::workload::{self, Operation};
use kvbench::{load, run};

struct Null;

impl Database for Null {
    fn stat(&self) -> Result<String, BackendError> {
        Ok(String::new())
    }

    fn read(&self, _: &[u8]) -> Result<bool, BackendError> {
        Ok(true)
    }

    fn scan(&self, _: &[u8], _: usize) -> Result<(), BackendError> {
        Ok(())
    }

    fn write(&self, _: &[u8], _: &[u8]) -> Result<(), BackendError> {
        Ok(())
    }
}

struct Unused;

impl Generator for Unused {
    fn next(&self) -> u64 {
        0
    }
}

fn options() -> db::Options {
    db::Options::new(Name::Lmdb, String::from("/tmp/bench"))
}

fn command() -> run::Command {
    run::Command {
        db: options(),
        dataset: dataset::Options::default(),
        workload: workload::Options::default(),
        num_threads: DEFAULT_NUM_THREADS,
        num_operations: 250,
    }
}

fn quiet(_: Report) {}

#[test]
fn defaults() {
    assert_eq!(DEFAULT_NUM_THREADS, 1);
    assert_eq!(DEFAULT_NUM_OPERATIONS, 1_000_000);
    let o = options();
    assert_eq!(o.db, Name::Lmdb);
    assert_eq!(o.path, "/tmp/bench");
    assert!(!o.sync);
    assert_eq!(o.cache_size, 128 * 1024 * 1024);
    assert_eq!(db::DEFAULT_CACHE_SIZE, 128 << 20);
}

#[test]
fn a_good_configuration_runs() {
    let command = command();
    assert_eq!(command.validate(), Ok(()));
    let context = command.run(Box::new(Null), Box::new(Unused)).ok().unwrap();
    assert_eq!(context.run(quiet), Ok(()));
    assert_eq!(context.statistics().count(), 250);
    assert_eq!(context.statistics().snapshot(Operation::Scan).count(), 0);
}

#[test]
fn empty_keys_are_refused() {
    let mut command = command();
    command.dataset.klen = 0;
    assert_eq!(command.validate(), Err(ConfigError::EmptyKeys));
    assert_eq!(command.run(Box::new(Null), Box::new(Unused)).err(), Some(ConfigError::EmptyKeys));
}

#[test]
fn an_empty_keyspace_is_refused() {
    let mut command = command();
    command.dataset.num_records = 0;
    assert_eq!(command.validate(), Err(ConfigError::NoRecords));
    assert_eq!(command.run(Box::new(Null), Box::new(Unused)).err(), Some(ConfigError::NoRecords));
}

#[test]
fn ratios_of_zero_are_refused() {
    let mut command = command();
    command.workload = workload::Options { read_ratio: 0, scan_ratio: 0, write_ratio: 0 };
    assert_eq!(command.validate(), Err(ConfigError::NoOperations));
    assert_eq!(command.run(Box::new(Null), Box::new(Unused)).err(), Some(ConfigError::NoOperations));
}

#[test]
fn the_first_fault_is_reported() {
    let mut command = command();
    command.workload = workload::Options { read_ratio: 0, scan_ratio: 0, write_ratio: 0 };
    command.dataset.num_records = 0;
    assert_eq!(command.validate(), Err(ConfigError::NoRecords));
    command.dataset.klen = 0;
    assert_eq!(command.validate(), Err(ConfigError::EmptyKeys));
}

#[test]
fn values_may_be_empty_and_workers_absent() {
    let mut command = command();
    command.dataset.vlen = 0;
    command.num_threads = 0;
    command.num_operations = 0;
    assert_eq!(command.validate(), Ok(()));
}

#[test]
fn a_load_is_a_run_of_writes_over_every_record() {
    let load = load::Command {
        db: options(),
        dataset: dataset::Options { klen: 4, vlen: 10, num_records: 100, distribution: Distribution::Sequential },
        num_threads: 3,
    };
    let run = load.clone().into_run();
    assert_eq!(run.workload, workload::Options::new_for_load());
    assert_eq!(run.num_operations, 100);
    assert_eq!(run.num_threads, 3);
    assert_eq!(run.dataset, load.dataset);
    assert_eq!(run.db.path, "/tmp/bench");

    let context = load.run(Box::new(Null), Box::new(Unused)).ok().unwrap();
    assert_eq!(context.run(quiet), Ok(()));
    let statistics = context.statistics();
    assert_eq!(statistics.count(), 100);
    assert_eq!(statistics.snapshot(Operation::Write).count(), 100);
    assert_eq!(statistics.snapshot(Operation::Read).count(), 0);
}

#[test]
fn a_load_without_records_is_refused() {
    let load = load::Command {
        db: options(),
        dataset: dataset::Options { klen: 4, vlen: 10, num_records: 0, distribution: Distribution::Uniform },
        num_threads: 1,
    };
    assert_eq!(load.run(Box::new(Null), Box::new(Unused)).err(), Some(ConfigError::NoRecords));
}
