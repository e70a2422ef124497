//! A future that is ready at once.

use vstd::prelude::*;
use std::task::Poll;

verus! {

/// A future that is ready with a value at its first poll.
pub struct Ready<T>(pub Option<T>);

impl<T> Ready<T> {
    /// The future that is ready with `value`.
    pub fn new(value: T) -> (ready: Ready<T>)
        ensures
            ready.0 == Some(value),
    {
        Ready(Some(value))
    }

    /// The first and only poll: ready with the value, which leaves the
    /// future. A future that has handed out its value is not polled again.
    pub fn poll(&mut self) -> (r: Poll<T>)
        requires
            old(self).0 is Some,
        ensures
            r == Poll::Ready(old(self).0->0),
            final(self).0 is None,
    {
        match self.0.take() {
            Some(value) => Poll::Ready(value),
            None => vstd::pervasive::unreached(),
        }
    }
}

/// The future that is ready with `Ok(t)`.
pub fn ok<T, E>(t: T) -> (ready: Ready<Result<T, E>>)
    ensures
        ready.0 == Some(Ok::<T, E>(t)),
{
    Ready(Some(Ok(t)))
}

} // verus!
