//! Communication between tasks: a multi-producer, single-consumer queue, and
//! the semaphore that bounds it.

pub mod error;
pub mod mpsc;
pub mod semaphore;
