//! Futures that need no executor.

pub mod ready;
