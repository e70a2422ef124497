//! The task system: the bit-packed state word, the task record and the
//! handle through which a task's output is awaited.

pub mod header;
pub mod join;
pub mod layout;
pub mod raw;
pub mod spawn;
pub mod state;
pub mod task;
