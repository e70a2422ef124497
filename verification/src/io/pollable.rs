//! The adapter between an I/O resource and the reactor: a resource together
//! with the token of its registered source.

use vstd::prelude::*;
use std::io;
use std::task::Poll;
use std::task::Waker;
use super::epoll::CtlRequest;
use super::epoll::Interest;
use super::epoll::Source;
use super::epoll::Token;
use super::io_source::Direction;
use super::reactor::Inner;
use crate::std_specs::io_error_kind;
use crate::std_specs::kind_of;
use crate::std_specs::IoErrorKind;

verus! {

/// Whether an I/O error says that the operation would have blocked.
pub open spec fn would_block(error: io::Error) -> bool {
    io_error_kind(error) == IoErrorKind::WouldBlock
}

/// Bridges the event queue and an I/O resource.
pub struct Pollable<T> {
    /// The I/O resource.
    io: T,
    /// The token of the resource's source in the reactor.
    token: Token,
}

impl<T> Pollable<T> {
    /// The token under which the resource is registered.
    pub closed spec fn token_spec(&self) -> Token {
        self.token
    }

    /// The I/O resource.
    pub closed spec fn io_spec(&self) -> T {
        self.io
    }

    #[verifier::when_used_as_spec(token_spec)]
    pub fn token(&self) -> (token: Token)
        ensures
            token == self.token_spec(),
    {
        self.token
    }

    /// The I/O resource.
    pub fn get_ref(&self) -> (io: &T)
        ensures
            *io == self.io_spec(),
    {
        &self.io
    }

    /// The I/O resource, to read from or to write to.
    pub fn get_mut(&mut self) -> (io: &mut T)
        ensures
            *io == old(self).io_spec(),
            final(self).io_spec() == *final(io),
            final(self).token_spec() == old(self).token_spec(),
    {
        &mut self.io
    }

    /// The interest with which a resource is registered by default: reading
    /// and writing.
    pub fn interest() -> (interest: Interest)
        ensures
            interest@ == super::epoll::READABLE_BITS | super::epoll::WRITABLE_BITS,
    {
        Interest::readable().union(Interest::writable())
    }

    /// Whether the source is ready to be read, by the reactor's cache. If it
    /// is not, `waker` is registered as the reader, and the poll is pending.
    pub fn poll_readable(&self, reactor: &mut Inner, waker: &Waker) -> (r: Poll<io::Result<()>>)
        requires
            old(reactor).wf(),
            old(reactor).sources().dom().contains(self.token_spec().0),
        ensures
            final(reactor).wf(),
            final(reactor).epfd() == old(reactor).epfd(),
            final(reactor).vacant_key() == old(reactor).vacant_key(),
            old(reactor).sources()[self.token_spec().0].readable ==> r == Poll::Ready(
                Ok::<(), io::Error>(()),
            ) && final(reactor).sources() == old(reactor).sources(),
            !old(reactor).sources()[self.token_spec().0].readable ==> r is Pending && final(reactor).sources() == old(reactor).sources().insert(
                self.token_spec().0,
                old(reactor).sources()[self.token_spec().0].with_waiter(Direction::Read, *waker),
            ),
    {
        reactor.poll_ready(self.token, Direction::Read, waker)
    }

    /// Whether the source is ready to be written, by the reactor's cache. If
    /// it is not, `waker` is registered as the writer, and the poll is
    /// pending.
    pub fn poll_writable(&self, reactor: &mut Inner, waker: &Waker) -> (r: Poll<io::Result<()>>)
        requires
            old(reactor).wf(),
            old(reactor).sources().dom().contains(self.token_spec().0),
        ensures
            final(reactor).wf(),
            final(reactor).epfd() == old(reactor).epfd(),
            final(reactor).vacant_key() == old(reactor).vacant_key(),
            old(reactor).sources()[self.token_spec().0].writable ==> r == Poll::Ready(
                Ok::<(), io::Error>(()),
            ) && final(reactor).sources() == old(reactor).sources(),
            !old(reactor).sources()[self.token_spec().0].writable ==> r is Pending && final(reactor).sources() == old(reactor).sources().insert(
                self.token_spec().0,
                old(reactor).sources()[self.token_spec().0].with_waiter(Direction::Write, *waker),
            ),
    {
        reactor.poll_ready(self.token, Direction::Write, waker)
    }

    /// Finishes a read that `poll_readable` has allowed, given what the read
    /// on the resource returned.
    ///
    /// A count of bytes or an error is the result of the poll, but for the
    /// error that says the read would have blocked. That one means that the
    /// cached readiness was stale: it is cleared, so that the reactor can
    /// report the source anew, `waker` is registered as the reader, and the
    /// poll is pending.
    pub fn poll_read(&self, reactor: &mut Inner, waker: &Waker, attempt: io::Result<usize>) -> (r:
        Poll<io::Result<usize>>)
        requires
            old(reactor).wf(),
            old(reactor).sources().dom().contains(self.token_spec().0),
        ensures
            final(reactor).wf(),
            final(reactor).epfd() == old(reactor).epfd(),
            final(reactor).vacant_key() == old(reactor).vacant_key(),
            read_blocked(attempt) ==> r is Pending && final(reactor).sources() == old(reactor).sources().insert(
                self.token_spec().0,
                old(reactor).sources()[self.token_spec().0].cleared(Direction::Read).with_waiter(
                    Direction::Read,
                    *waker,
                ),
            ),
            !read_blocked(attempt) ==> r == Poll::Ready(attempt) && final(reactor).sources() == old(reactor).sources(),
    {
        match attempt {
            Ok(n) => Poll::Ready(Ok(n)),
            Err(e) => {
                if kind_of(&e) == IoErrorKind::WouldBlock {
                    reactor.clear_readiness(self.token, Direction::Read);
                    let ghost cleared = reactor.sources();
                    let again = reactor.poll_ready(self.token, Direction::Read, waker);
                    proof {
                        assert(final(reactor).sources() =~= old(reactor).sources().insert(
                            self.token_spec().0,
                            old(reactor).sources()[self.token_spec().0].cleared(
                                Direction::Read,
                            ).with_waiter(Direction::Read, *waker),
                        ));
                    }
                    Poll::Pending
                } else {
                    Poll::Ready(Err(e))
                }
            },
        }
    }

    /// Ends the registration: the source leaves the reactor's slab. Returns
    /// the resource and the `epoll_ctl` call that takes its descriptor out of
    /// the event queue.
    pub fn deregister(self, reactor: &mut Inner) -> (r: (T, CtlRequest))
        requires
            old(reactor).wf(),
            old(reactor).sources().dom().contains(self.token_spec().0),
        ensures
            final(reactor).wf(),
            final(reactor).epfd() == old(reactor).epfd(),
            final(reactor).sources() == old(reactor).sources().remove(self.token_spec().0),
            r.0 == self.io_spec(),
            r.1.epfd == old(reactor).epfd(),
            r.1.op == super::epoll::CtlOp::DEL,
            r.1.fd == old(reactor).sources()[self.token_spec().0].io,
            r.1.event is None,
    {
        let request = reactor.deregister(self.token);
        (self.io, request)
    }
}

impl<T: Source> Pollable<T> {
    /// The `epoll_ctl` call that registers `io` with `interest`, to be made
    /// before `new`.
    pub fn registration(io: &T, interest: Interest, reactor: &Inner) -> (request: CtlRequest)
        ensures
            request.epfd == reactor.epfd(),
            request.op == super::epoll::CtlOp::ADD,
            request.fd == io.fd(),
            request.event is Some,
            request.event->0@ == (super::epoll::EventView {
                interest: interest@,
                data: reactor.vacant_key() as u64,
            }),
    {
        reactor.registration(io.raw_fd(), interest)
    }

    /// Wraps `io` once `epoll_ctl` has answered the call of `registration`
    /// with `added`: on success the reactor holds a new source for the
    /// descriptor of `io`, and the adapter holds its token; on failure the
    /// reactor is as it was and the operating system's error is returned.
    pub fn new(io: T, reactor: &mut Inner, added: i32) -> (r: io::Result<Pollable<T>>)
        requires
            old(reactor).wf(),
        ensures
            final(reactor).wf(),
            final(reactor).epfd() == old(reactor).epfd(),
            added < 0 ==> r is Err && final(reactor).sources() == old(reactor).sources(),
            added >= 0 ==> r is Ok && r->Ok_0.io_spec() == io && r->Ok_0.token_spec() == Token(
                old(reactor).vacant_key(),
            ) && final(reactor).sources() == old(reactor).sources().insert(
                old(reactor).vacant_key(),
                super::io_source::IoSourceView {
                    io: io.fd(),
                    tick: 0,
                    token: Token(old(reactor).vacant_key()),
                    readable: false,
                    writable: false,
                    reader: None,
                    writer: None,
                },
            ),
    {
        match reactor.register(io.raw_fd(), added) {
            Ok(token) => Ok(Pollable { io, token }),
            Err(e) => Err(e),
        }
    }
}

/// Whether what a read returned says that the read would have blocked.
pub open spec fn read_blocked(attempt: io::Result<usize>) -> bool {
    attempt is Err && would_block(attempt->Err_0)
}

} // verus!
