//! The executor: the records of the spawned tasks, the ready-queue, and the
//! decisions of the loop that drives a top-level future.

pub mod context;
pub mod runtime;
