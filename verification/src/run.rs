//! The `run` command: a full benchmark.

use crate::dataset::Dataset;
use crate::db::Database;
use crate::generator::Generator;
use crate::runtime::{Context, Runtime};
use crate::workload::Workload;
use vstd::prelude::*;

verus! {

/// The number of workers unless one is given.
pub const DEFAULT_NUM_THREADS: usize = 1;

/// The number of operations of a run unless one is given.
pub const DEFAULT_NUM_OPERATIONS: usize = 1_000_000;

/// What is wrong with the configuration of a run.
#[derive(Clone, Copy, Debug, PartialEq, Eq, Structural)]
pub enum ConfigError {
    /// Keys of no bytes were asked for.
    EmptyKeys,
    /// A keyspace without records was asked for.
    NoRecords,
    /// All three ratios are zero.
    NoOperations,
}

/// The configuration of a run.
#[derive(Clone, Debug)]
pub struct Command {
    /// The backend to run against.
    pub db: crate::db::Options,
    /// The keyspace.
    pub dataset: crate::dataset::Options,
    /// The mix of operations.
    pub workload: crate::workload::Options,
    /// The number of workers.
    pub num_threads: usize,
    /// The number of operations, over all workers.
    pub num_operations: usize,
}

impl Command {
    /// What is wrong with this configuration, if anything: the first of empty
    /// keys, an empty keyspace, and ratios that are all zero.
    pub open spec fn fault(&self) -> Option<ConfigError> {
        if self.dataset.klen == 0 {
            Some(ConfigError::EmptyKeys)
        } else if self.dataset.num_records == 0 {
            Some(ConfigError::NoRecords)
        } else if self.workload.total() == 0 {
            Some(ConfigError::NoOperations)
        } else {
            None
        }
    }

    /// Checks the configuration, before anything is opened or started.
    pub fn validate(&self) -> (r: Result<(), ConfigError>)
        ensures
            r.is_ok() <==> self.fault().is_none(),
            r matches Err(e) ==> self.fault() == Some(e),
    {
        if self.dataset.klen == 0 {
            Err(ConfigError::EmptyKeys)
        } else if self.dataset.num_records == 0 {
            Err(ConfigError::NoRecords)
        } else if !self.workload.is_valid() {
            Err(ConfigError::NoOperations)
        } else {
            Ok(())
        }
    }

    /// Sets the run up on an open backend: the context that the workers of
    /// this run share, with its dataset, its workload and a budget of
    /// `num_operations`, none of it used. A configuration with a fault is
    /// refused. `ranks` is the skewed source that a Zipfian distribution
    /// scatters.
    pub fn run(&self, db: Box<dyn Database>, ranks: Box<dyn Generator>) -> (r: Result<Context, ConfigError>)
        ensures
            r.is_ok() <==> self.fault().is_none(),
            r matches Err(e) ==> self.fault() == Some(e),
            r matches Ok(context) ==> {
                &&& context.dataset().options() == self.dataset
                &&& context.workload()@ == self.workload.weights()
                &&& context.max_operations() == self.num_operations
            },
    {
        match self.validate() {
            Err(e) => Err(e),
            Ok(()) => {
                let dataset = Dataset::new(self.dataset, ranks);
                let workload = Workload::new(self.workload);
                Ok(Runtime::new(db, dataset, workload).start(self.num_operations))
            },
        }
    }
}

} // verus!
