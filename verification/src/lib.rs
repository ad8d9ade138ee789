//! A multi-threaded benchmark harness for embedded ordered key-value stores.
//!
//! The library holds the measurement core: the workload mixer, the key
//! derivation, the latency histograms, the interval reporter and the shared
//! operation budget, with the commands that set a run up and the shell that
//! looks into a store. Each function states what it computes, and the
//! statements are proved. What a worker shares with the others it holds in
//! atomics and behind one lock; of those values no contract speaks, and the
//! decisions taken on them are functions of their own, which say what they
//! decide for every value.

pub mod dataset;
pub mod db;
pub mod generator;
pub mod key;
pub mod latency;
pub mod load;
pub mod open;
pub mod report;
pub mod run;
pub mod runtime;
pub mod shell;
pub mod statistics;
pub mod text;
pub mod totals;
pub mod workload;
