//! A multi-producer, single-consumer queue for sending values between
//! tasks: the state that the sending and the receiving handles share.

use vstd::prelude::*;
use std::collections::VecDeque;
use std::task::Poll;
use std::task::Waker;
use super::error::SendError;
use super::error::TryRecvError;
use super::semaphore::Semaphore;
use super::semaphore::SemaphoreView;

verus! {

/// Whether a channel still takes messages.
#[derive(Debug, Clone, Copy, PartialEq, Eq, Structural)]
pub enum State {
    Open,
    Closed,
}

/// What a channel holds.
pub struct ChannelView<T> {
    /// The messages under way, oldest first.
    pub queue: Seq<T>,
    /// The number of sending handles.
    pub tx_count: nat,
    pub state: State,
    /// The waker of the receiver, if it waits for a message.
    pub rx_waker: Option<Waker>,
    /// The semaphore that controls access to the channel.
    pub semaphore: SemaphoreView,
}

/// The state of a channel.
pub struct Channel<T> {
    /// The messages under way.
    queue: VecDeque<T>,
    /// The number of sending handles. When it drops to zero, the channel
    /// closes.
    tx_count: usize,
    state: State,
    /// Woken when a message is pushed into the channel.
    rx_waker: Option<Waker>,
    /// Controls access to the channel.
    semaphore: Semaphore,
}

impl<T> View for Channel<T> {
    type V = ChannelView<T>;

    closed spec fn view(&self) -> ChannelView<T> {
        ChannelView {
            queue: self.queue@,
            tx_count: self.tx_count as nat,
            state: self.state,
            rx_waker: self.rx_waker,
            semaphore: self.semaphore@,
        }
    }
}

impl<T> Channel<T> {
    /// An open channel without messages, with one sending handle and a
    /// semaphore of `size` permits.
    pub fn new(size: usize) -> (channel: Channel<T>)
        ensures
            channel@ == (ChannelView {
                queue: Seq::<T>::empty(),
                tx_count: 1,
                state: State::Open,
                rx_waker: None,
                semaphore: SemaphoreView { permits: size as nat, waiters: Seq::empty() },
            }),
    {
        Channel {
            queue: VecDeque::new(),
            tx_count: 1,
            state: State::Open,
            rx_waker: None,
            semaphore: Semaphore::new(size),
        }
    }

    /// Wakes the receiver if it waits; it then waits no more.
    pub fn wake_rx(&mut self)
        ensures
            final(self)@ == (ChannelView { rx_waker: None, ..old(self)@ }),
    {
        match self.rx_waker.take() {
            Some(waker) => waker.wake(),
            None => {},
        }
    }

    /// Closes the channel: it takes no further message. What it holds can
    /// still be received.
    pub fn close(&mut self)
        ensures
            final(self)@ == (ChannelView { state: State::Closed, ..old(self)@ }),
    {
        self.state = State::Closed;
    }

    /// One more sending handle.
    pub fn incr_tx_count(&mut self)
        requires
            old(self)@.tx_count < usize::MAX,
        ensures
            final(self)@ == (ChannelView { tx_count: old(self)@.tx_count + 1, ..old(self)@ }),
    {
        self.tx_count = self.tx_count + 1;
    }

    /// One sending handle less.
    pub fn decr_tx_count(&mut self)
        requires
            old(self)@.tx_count > 0,
        ensures
            final(self)@ == (ChannelView {
                tx_count: (old(self)@.tx_count - 1) as nat,
                ..old(self)@
            }),
    {
        self.tx_count = self.tx_count - 1;
    }

    /// The number of sending handles.
    pub fn tx_count(&self) -> (count: usize)
        ensures
            count == self@.tx_count,
    {
        self.tx_count
    }

    /// Whether the channel is closed.
    pub fn is_closed(&self) -> (b: bool)
        ensures
            b == (self@.state == State::Closed),
    {
        match self.state {
            State::Open => false,
            State::Closed => true,
        }
    }

    /// How many messages are under way.
    pub fn len(&self) -> (n: usize)
        ensures
            n == self@.queue.len(),
    {
        self.queue.len()
    }

    /// The semaphore that controls access to the channel.
    pub fn semaphore(&mut self) -> (semaphore: &mut Semaphore)
        ensures
            semaphore@ == old(self)@.semaphore,
            final(self)@ == (ChannelView { semaphore: final(semaphore)@, ..old(self)@ }),
    {
        &mut self.semaphore
    }

    /// A sending handle is cloned: the channel counts one more.
    pub fn sender_cloned(&mut self)
        requires
            old(self)@.tx_count < usize::MAX,
        ensures
            final(self)@ == (ChannelView { tx_count: old(self)@.tx_count + 1, ..old(self)@ }),
    {
        self.incr_tx_count();
    }

    /// A sending handle is dropped: the channel counts one less, and closes
    /// when that was the last.
    pub fn sender_dropped(&mut self)
        requires
            old(self)@.tx_count > 0,
        ensures
            final(self)@ == (ChannelView {
                tx_count: (old(self)@.tx_count - 1) as nat,
                state: if old(self)@.tx_count == 1 {
                    State::Closed
                } else {
                    old(self)@.state
                },
                ..old(self)@
            }),
    {
        self.decr_tx_count();
        if self.tx_count() == 0 {
            self.close();
        }
    }

    /// The receiving handle is dropped: the channel closes.
    pub fn receiver_dropped(&mut self)
        ensures
            final(self)@ == (ChannelView { state: State::Closed, ..old(self)@ }),
    {
        self.close();
    }

    /// Sends `message`: on an open channel it goes to the back of the queue,
    /// and the receiver is woken if it waits (its waker stays registered). A
    /// closed channel hands the message back.
    pub fn send(&mut self, message: T) -> (r: Result<(), SendError<T>>)
        ensures
            old(self)@.state == State::Open ==> r is Ok && final(self)@ == (ChannelView {
                queue: old(self)@.queue.push(message),
                ..old(self)@
            }),
            old(self)@.state == State::Closed ==> r == Err::<(), SendError<T>>(SendError(message))
                && final(self)@ == old(self)@,
    {
        match self.state {
            State::Open => {
                self.queue.push_back(message);
                match &self.rx_waker {
                    Some(waker) => waker.wake_by_ref(),
                    None => {},
                }
                Ok(())
            },
            State::Closed => Err(SendError(message)),
        }
    }

    /// One poll of the receiver: the oldest message if there is one, whether
    /// or not the channel is closed. Without a message, a closed channel is
    /// at its end, and the poll is ready with nothing; an open one may still
    /// get messages, so a clone of `waker` is registered, in place of any
    /// waker from an earlier poll, and the poll is pending.
    pub fn recv(&mut self, waker: &Waker) -> (r: Poll<Option<T>>)
        ensures
            old(self)@.queue.len() > 0 ==> r == Poll::Ready(Some(old(self)@.queue[0]))
                && final(self)@ == (ChannelView {
                queue: old(self)@.queue.drop_first(),
                ..old(self)@
            }),
            old(self)@.queue.len() == 0 && old(self)@.state == State::Closed ==> r == Poll::Ready(
                None::<T>,
            ) && final(self)@ == old(self)@,
            old(self)@.queue.len() == 0 && old(self)@.state == State::Open ==> r is Pending
                && final(self)@ == (ChannelView { rx_waker: Some(*waker), ..old(self)@ }),
    {
        match self.queue.pop_front() {
            Some(message) => {
                proof {
                    assert(self.queue@ =~= old(self).queue@.drop_first());
                }
                Poll::Ready(Some(message))
            },
            None => {
                match self.state {
                    State::Open => {
                        self.rx_waker = Some(waker.clone());
                        Poll::Pending
                    },
                    State::Closed => Poll::Ready(None),
                }
            },
        }
    }

    /// The oldest message, without waiting; else whether more may come.
    pub fn try_recv(&mut self) -> (r: Result<T, TryRecvError>)
        ensures
            old(self)@.queue.len() > 0 ==> r == Ok::<T, TryRecvError>(old(self)@.queue[0])
                && final(self)@ == (ChannelView {
                queue: old(self)@.queue.drop_first(),
                ..old(self)@
            }),
            old(self)@.queue.len() == 0 ==> final(self)@ == old(self)@ && r == Err::<
                T,
                TryRecvError,
            >(
                match old(self)@.state {
                    State::Open => TryRecvError::Empty,
                    State::Closed => TryRecvError::Disconnected,
                },
            ),
    {
        match self.queue.pop_front() {
            Some(message) => {
                proof {
                    assert(self.queue@ =~= old(self).queue@.drop_first());
                }
                Ok(message)
            },
            None => match self.state {
                State::Open => Err(TryRecvError::Empty),
                State::Closed => Err(TryRecvError::Disconnected),
            },
        }
    }
}

/// Messages come out in the order in which they went in: what is sent into
/// an open channel is what the receiver gets once everything sent before it
/// has been received.
pub proof fn lemma_fifo<T>(channel: ChannelView<T>, message: T)
    ensures
        channel.queue.push(message).len() == channel.queue.len() + 1,
        channel.queue.push(message)[channel.queue.len() as int] == message,
        channel.queue.len() == 0 ==> channel.queue.push(message)[0] == message
            && channel.queue.push(message).drop_first() == channel.queue,
{
    if channel.queue.len() == 0 {
        assert(channel.queue.push(message).drop_first() =~= channel.queue);
    }
}

} // verus!
