//! What sending to and receiving from a channel can fail with.

use vstd::prelude::*;

verus! {

/// The channel is closed; the message that could not be sent comes back.
#[derive(Debug)]
pub struct SendError<T>(pub T);

/// Why nothing was received without waiting.
#[derive(Debug, Clone, Copy, PartialEq, Eq, Structural)]
pub enum TryRecvError {
    /// The channel is open and holds no message now.
    Empty,
    /// The channel is closed and holds no message: none will come.
    Disconnected,
}

} // verus!
