//! Core of a single-threaded asynchronous runtime for Linux: the task state
//! machine, the executor's ready-queue, and the readiness reactor that sits
//! on top of `epoll`.
//!
//! Everything here is verified with Verus. The crate makes no system call and
//! polls no future: whoever drives it does both and hands the results in.
//!
//! - [`task`]: the bit-packed state word, the task record with its reference
//!   count, the join handle, the memory layout of a record.
//! - [`runtime`]: the executor, which holds the records and the ready-queue
//!   and decides when the driver parks, and the per-thread context.
//! - [`io`]: the vocabulary of `epoll`, the reactor's slab of sources, the
//!   dispatch of events to wakers, the adapter for an I/O resource.
//! - [`channel`]: a multi-producer, single-consumer queue and its semaphore.
//! - [`future`]: a future that is ready at once.
//! - [`std_specs`]: what is taken on trust about wakers, poll results and
//!   I/O errors of the standard library. The `slab` crate's slab is described
//!   in `io::reactor`.

pub mod channel;
pub mod future;
pub mod io;
pub mod runtime;
pub mod std_specs;
pub mod task;
