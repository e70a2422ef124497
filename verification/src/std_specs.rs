//! What this crate takes on trust about the standard library's wakers,
//! poll results and I/O errors, none of which `vstd` describes.

use vstd::prelude::*;
use std::io;
use std::task::Waker;

verus! {

/// `std::task::Waker`, opaque. In contracts a waker's value stands for the
/// task that it notifies: two wakers are equal when they notify the same task.
#[verifier::external_type_specification]
#[verifier::external_body]
pub struct ExWaker(std::task::Waker);

/// `std::task::Poll`, with its two variants `Ready` and `Pending`.
#[verifier::external_type_specification]
#[verifier::reject_recursive_types(T)]
pub struct ExPoll<T>(std::task::Poll<T>);

/// `std::io::Error`, opaque.
#[verifier::external_type_specification]
#[verifier::external_body]
pub struct ExIoError(std::io::Error);

/// `Waker::wake` notifies the waker's task and consumes the waker. Nothing
/// that a contract of this crate can observe is claimed of it.
pub assume_specification[ Waker::wake ](waker: Waker);

/// `Waker::wake_by_ref` notifies the waker's task and leaves the waker with
/// the caller. Nothing is claimed of it.
pub assume_specification[ Waker::wake_by_ref ](waker: &Waker);

/// `Waker::clone` returns a waker for the same task: the clone has the value
/// of the waker that it was made from.
pub assume_specification[ <Waker as Clone>::clone ](waker: &Waker) -> (clone: Waker)
    ensures
        clone == *waker,
;

/// `std::io::Error::last_os_error` reads the calling thread's last OS error
/// code, which is no function of any argument: nothing is claimed of the
/// error returned.
pub assume_specification[ std::io::Error::last_os_error ]() -> (error: std::io::Error);

/// The kinds of I/O error that the runtime tells apart.
#[derive(Debug, Clone, Copy, PartialEq, Eq, Structural)]
pub enum IoErrorKind {
    /// The operation would have blocked: the resource is not ready.
    WouldBlock,
    /// A signal interrupted the operation, which can be tried again.
    Interrupted,
    /// Any other failure.
    Other,
}

/// The kind of an I/O error.
pub uninterp spec fn io_error_kind(error: io::Error) -> IoErrorKind;

/// `io::Error::kind`: the kind of the error, which depends on the error
/// alone; of std's kinds only `WouldBlock` and `Interrupted` are told apart.
#[verifier::external_body]
pub(crate) fn kind_of(error: &io::Error) -> (kind: IoErrorKind)
    ensures
        kind == io_error_kind(*error),
{
    match error.kind() {
        io::ErrorKind::WouldBlock => IoErrorKind::WouldBlock,
        io::ErrorKind::Interrupted => IoErrorKind::Interrupted,
        _ => IoErrorKind::Other,
    }
}

} // verus!
