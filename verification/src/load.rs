//! The `load` command: populates a store with every record of a dataset's
//! size, by writes alone.

use crate::db::Database;
use crate::generator::Generator;
use crate::run::ConfigError;
use crate::runtime::Context;
use vstd::prelude::*;

verus! {

/// The configuration of a load.
#[derive(Clone, Debug)]
pub struct Command {
    /// The backend to load into.
    pub db: crate::db::Options,
    /// The keyspace.
    pub dataset: crate::dataset::Options,
    /// The number of workers.
    pub num_threads: usize,
}

impl Command {
    /// The run that a load is: of writes only, and of as many operations as
    /// the dataset has records.
    pub open spec fn as_run(&self) -> crate::run::Command {
        crate::run::Command {
            db: self.db,
            dataset: self.dataset,
            workload: crate::workload::Options { read_ratio: 0, scan_ratio: 0, write_ratio: 1 },
            num_threads: self.num_threads,
            num_operations: self.dataset.num_records,
        }
    }

    /// The run that this load is.
    pub fn into_run(self) -> (run: crate::run::Command)
        ensures
            run == self.as_run(),
    {
        let num_operations = self.dataset.num_records;
        crate::run::Command {
            db: self.db,
            dataset: self.dataset,
            workload: crate::workload::Options::new_for_load(),
            num_threads: self.num_threads,
            num_operations,
        }
    }

    /// Sets the load up on an open backend, as the run that it is.
    pub fn run(self, db: Box<dyn Database>, ranks: Box<dyn Generator>) -> (r: Result<Context, ConfigError>)
        ensures
            r.is_ok() <==> self.as_run().fault().is_none(),
            r matches Err(e) ==> self.as_run().fault() == Some(e),
            r matches Ok(context) ==> {
                &&& context.dataset().options() == self.dataset
                &&& context.workload()@ == seq![0u64, 0u64, 1u64]
                &&& context.max_operations() == self.dataset.num_records
            },
    {
        let run = self.into_run();
        proof {
            assert(run.workload.weights() =~= seq![0u64, 0u64, 1u64]);
        }
        run.run(db, ranks)
    }
}

} // verus!
