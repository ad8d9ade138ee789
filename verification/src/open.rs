//! The `open` command: a shell on a store, to look into it.

use crate::db::Database;
use crate::shell::Shell;
use vstd::prelude::*;

verus! {

/// The configuration of a shell.
#[derive(Clone, Debug)]
pub struct Command {
    /// The backend to look into.
    pub db: crate::db::Options,
}

impl Command {
    /// The shell on the open backend, ready for its first line.
    pub fn run<D: Database + ?Sized>(&self, db: Box<D>) -> (shell: Shell<D>)
        ensures
            shell.store() == db,
    {
        Shell::new(db)
    }
}

} // verus!
