//! The workload engine of a database benchmark. A shared cursor cuts the
//! task space into batches; each worker takes batches and, for every key,
//! inserts its row, reads it back and checks it, or both; a controller bounds
//! the workers that run at once; and the runner lays out the steps of a run.
//! The database itself, the clock and the command line stay with the caller,
//! which performs each step and action that the library asks for.

pub mod config;
pub mod controller;
pub mod cursor;
pub mod runner;
pub mod worker;
