//! The storage backend as the benchmark sees it.

use vstd::prelude::*;

verus! {

/// The cache size of a backend unless one is given: 128 MiB.
pub const DEFAULT_CACHE_SIZE: usize = 134_217_728;

/// The backends that can be named.
#[derive(Clone, Copy, Debug, PartialEq, Eq, Structural)]
pub enum Name {
    Lmdb,
    Rocksdb,
    Wiredtiger,
}

/// How to open a backend.
#[derive(Clone, Debug)]
pub struct Options {
    /// Which backend.
    pub db: Name,
    /// The directory that holds its data.
    pub path: String,
    /// Whether writes are synced to disk before they return.
    pub sync: bool,
    /// The size of its cache, in bytes.
    pub cache_size: usize,
}

impl Options {
    /// The options for a backend at a path, with nothing else chosen: no sync,
    /// and the default cache size.
    pub fn new(db: Name, path: String) -> (o: Options)
        ensures
            o.db == db,
            o.path == path,
            !o.sync,
            o.cache_size == DEFAULT_CACHE_SIZE,
    {
        Options { db, path, sync: false, cache_size: DEFAULT_CACHE_SIZE }
    }
}

/// The failure of one operation of a backend.
#[derive(Clone, Debug)]
pub struct BackendError {
    /// What the backend had to say.
    pub message: String,
}

/// An ordered key-value store: what a backend has to offer to be measured.
/// Every operation blocks until it is done, and may fail.
pub trait Database: Send + Sync {
    /// A description of the state of the store.
    fn stat(&self) -> Result<String, BackendError>;

    /// Looks one key up, and says whether it is there. A key that is not
    /// there is no failure.
    fn read(&self, k: &[u8]) -> Result<bool, BackendError>;

    /// Walks forward from the first key at or after `k`, for at most `n`
    /// steps.
    fn scan(&self, k: &[u8], n: usize) -> Result<(), BackendError>;

    /// Stores `v` under `k`, whether or not the key is there already.
    fn write(&self, k: &[u8], v: &[u8]) -> Result<(), BackendError>;
}

} // verus!
