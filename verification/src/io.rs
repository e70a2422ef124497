//! Readiness-based I/O: the `epoll` vocabulary, the per-descriptor source
//! records and the reactor that turns kernel events into wake-ups.

pub mod epoll;
pub mod io_source;
pub mod readiness;
pub mod reactor;
pub mod pollable;
