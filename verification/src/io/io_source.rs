//! The reactor's record of one registered descriptor: its cached readiness
//! and the wakers of whoever waits to read or to write.

use vstd::prelude::*;
use std::io;
use std::task::Poll;
use std::task::Waker;
use super::epoll::Event;
use super::epoll::EventView;
use super::epoll::RawFd;
use super::epoll::Token;
use super::readiness::Readiness;

verus! {

/// The two directions in which a source is waited for.
#[derive(Debug, Clone, Copy, PartialEq, Eq, Structural)]
pub enum Direction {
    Read,
    Write,
}

/// Whether an event reports readiness in `direction`.
pub open spec fn reports(event: EventView, direction: Direction) -> bool {
    match direction {
        Direction::Read => event.is_readable(),
        Direction::Write => event.is_writable(),
    }
}

/// What a source holds, with its readiness spelled out.
pub struct IoSourceView {
    pub io: RawFd,
    pub tick: usize,
    pub token: Token,
    /// The cached readiness says that the source can be read.
    pub readable: bool,
    /// The cached readiness says that the source can be written.
    pub writable: bool,
    pub reader: Option<Waker>,
    pub writer: Option<Waker>,
}

impl IoSourceView {
    /// Whether the cached readiness says ready in `direction`.
    pub open spec fn ready(self, direction: Direction) -> bool {
        match direction {
            Direction::Read => self.readable,
            Direction::Write => self.writable,
        }
    }

    /// The waker of whoever waits in `direction`.
    pub open spec fn waiter(self, direction: Direction) -> Option<Waker> {
        match direction {
            Direction::Read => self.reader,
            Direction::Write => self.writer,
        }
    }

    /// The wakers that an event fires: the reader's if the event is readable
    /// and a reader waits, then the writer's if it is writable and a writer
    /// waits.
    pub open spec fn fired(self, event: EventView) -> Seq<Waker> {
        let readers = if event.is_readable() && self.reader is Some {
            seq![self.reader->0]
        } else {
            Seq::<Waker>::empty()
        };
        let writers = if event.is_writable() && self.writer is Some {
            seq![self.writer->0]
        } else {
            Seq::<Waker>::empty()
        };
        readers + writers
    }

    /// The source once the wakers of `event` have been taken out of it.
    pub open spec fn without_fired(self, event: EventView) -> IoSourceView {
        IoSourceView {
            reader: if event.is_readable() {
                None
            } else {
                self.reader
            },
            writer: if event.is_writable() {
                None
            } else {
                self.writer
            },
            ..self
        }
    }

    /// The source with the readiness that `event` reports in place of its own.
    pub open spec fn with_readiness_of(self, event: EventView) -> IoSourceView {
        IoSourceView { readable: event.is_readable(), writable: event.is_writable(), ..self }
    }

    /// The source no longer ready in `direction`.
    pub open spec fn cleared(self, direction: Direction) -> IoSourceView {
        match direction {
            Direction::Read => IoSourceView { readable: false, ..self },
            Direction::Write => IoSourceView { writable: false, ..self },
        }
    }

    /// The source with `waker` waiting in `direction`.
    pub open spec fn with_waiter(self, direction: Direction, waker: Waker) -> IoSourceView {
        match direction {
            Direction::Read => IoSourceView { reader: Some(waker), ..self },
            Direction::Write => IoSourceView { writer: Some(waker), ..self },
        }
    }

    /// What the reactor does to a source on an event for it: the readiness is
    /// replaced, the wakers that the event fires leave.
    pub open spec fn reacted(self, event: EventView) -> IoSourceView {
        self.with_readiness_of(event).without_fired(event)
    }
}

/// One registered descriptor.
pub struct IoSource {
    /// Raw file descriptor of the I/O resource.
    pub io: RawFd,
    /// The driver tick.
    pub tick: usize,
    /// Ties the source to its slot in the reactor's slab.
    pub token: Token,
    /// The readiness that the reactor last saw.
    pub readiness: Readiness,
    /// The waker of whoever waits to read.
    pub reader: Option<Waker>,
    /// The waker of whoever waits to write.
    pub writer: Option<Waker>,
}

impl View for IoSource {
    type V = IoSourceView;

    open spec fn view(&self) -> IoSourceView {
        IoSourceView {
            io: self.io,
            tick: self.tick,
            token: self.token,
            readable: self.readiness@.readable,
            writable: self.readiness@.writable,
            reader: self.reader,
            writer: self.writer,
        }
    }
}

impl IoSource {
    /// A source that was just registered: ready for nothing, nobody waiting.
    pub fn new(io: RawFd, token: Token) -> (source: IoSource)
        ensures
            source@ == (IoSourceView {
                io,
                tick: 0,
                token,
                readable: false,
                writable: false,
                reader: None,
                writer: None,
            }),
    {
        IoSource { io, tick: 0, token, readiness: Readiness::empty(), reader: None, writer: None }
    }

    /// Replaces the cached readiness by what `event` reports.
    pub fn set_readiness(&mut self, event: &Event)
        ensures
            final(self)@ == old(self)@.with_readiness_of(event@),
    {
        self.readiness = Readiness::from_event(event);
    }

    /// Forgets that the source was ready in `direction`. Whoever was told by
    /// the source itself that it would block calls this, or the next poll
    /// would go by a readiness that no longer holds.
    pub fn clear_readiness(&mut self, direction: Direction)
        ensures
            final(self)@ == old(self)@.cleared(direction),
    {
        match direction {
            Direction::Read => {
                self.readiness = self.readiness.difference(Readiness::readable());
            },
            Direction::Write => {
                self.readiness = self.readiness.difference(Readiness::writable());
            },
        }
    }

    /// Takes out the wakers that `event` fires, reader before writer, and
    /// empties their slots.
    pub fn take_wakers(&mut self, event: &Event) -> (wakers: Vec<Waker>)
        ensures
            wakers@ == old(self)@.fired(event@),
            final(self)@ == old(self)@.without_fired(event@),
    {
        let mut wakers: Vec<Waker> = Vec::new();
        if event.is_readable() {
            if let Some(waker) = self.reader.take() {
                wakers.push(waker);
            }
        }
        if event.is_writable() {
            if let Some(waker) = self.writer.take() {
                wakers.push(waker);
            }
        }
        wakers
    }

    /// Wakes whoever waits for what `event` reports, reader before writer, and
    /// empties their slots.
    pub fn wake(&mut self, event: &Event)
        ensures
            final(self)@ == old(self)@.without_fired(event@),
    {
        let wakers = self.take_wakers(event);
        wake_all(wakers);
    }

    /// Ready at once if the cached readiness says so; else `waker` takes the
    /// slot of `direction`, in place of any waker that held it, and the poll
    /// is pending.
    pub fn poll_ready(&mut self, direction: Direction, waker: &Waker) -> (r: Poll<io::Result<()>>)
        ensures
            old(self)@.ready(direction) ==> r == Poll::Ready(Ok::<(), io::Error>(()))
                && final(self)@ == old(self)@,
            !old(self)@.ready(direction) ==> r is Pending
                && final(self)@ == old(self)@.with_waiter(direction, *waker),
    {
        match direction {
            Direction::Read => {
                if self.readable() {
                    return Poll::Ready(Ok(()));
                }
            },
            Direction::Write => {
                if self.writable() {
                    return Poll::Ready(Ok(()));
                }
            },
        }
        match direction {
            Direction::Read => {
                self.reader = Some(waker.clone());
            },
            Direction::Write => {
                self.writer = Some(waker.clone());
            },
        }
        Poll::Pending
    }

    /// `poll_ready` for reading.
    pub fn poll_readable(&mut self, waker: &Waker) -> (r: Poll<io::Result<()>>)
        ensures
            old(self)@.readable ==> r == Poll::Ready(Ok::<(), io::Error>(()))
                && final(self)@ == old(self)@,
            !old(self)@.readable ==> r is Pending
                && final(self)@ == old(self)@.with_waiter(Direction::Read, *waker),
    {
        self.poll_ready(Direction::Read, waker)
    }

    /// `poll_ready` for writing.
    pub fn poll_writable(&mut self, waker: &Waker) -> (r: Poll<io::Result<()>>)
        ensures
            old(self)@.writable ==> r == Poll::Ready(Ok::<(), io::Error>(()))
                && final(self)@ == old(self)@,
            !old(self)@.writable ==> r is Pending
                && final(self)@ == old(self)@.with_waiter(Direction::Write, *waker),
    {
        self.poll_ready(Direction::Write, waker)
    }

    /// Whether the cached readiness says that the source can be read.
    pub fn readable(&self) -> (b: bool)
        ensures
            b == self@.readable,
    {
        self.readiness.contains(Readiness::readable())
    }

    /// Whether the cached readiness says that the source can be written.
    pub fn writable(&self) -> (b: bool)
        ensures
            b == self@.writable,
    {
        self.readiness.contains(Readiness::writable())
    }
}

/// Wakes every waker of `wakers`, first to last.
pub fn wake_all(wakers: Vec<Waker>) {
    for waker in wakers {
        waker.wake();
    }
}

} // verus!
