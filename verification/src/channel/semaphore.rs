//! A counting semaphore for tasks: permits, and the wakers of those who
//! wait for one.

use vstd::prelude::*;
use std::collections::VecDeque;
use std::task::Poll;
use std::task::Waker;

verus! {

/// What a semaphore holds.
pub struct SemaphoreView {
    /// The permits that can be had now.
    pub permits: nat,
    /// The wakers of those who wait for a permit, longest wait first.
    pub waiters: Seq<Waker>,
}

/// A counting semaphore.
pub struct Semaphore {
    permits: usize,
    waiters: VecDeque<Waker>,
}

/// One party that waits for a permit.
pub struct Waiter {
    /// The waker of the waiting task, once it has had to wait.
    pub waker: Option<Waker>,
}

/// The attempt to acquire a permit of a semaphore, polled until it has one.
pub struct Acquire {
    pub waiter: Waiter,
}

/// Acquiring failed.
#[derive(Debug, Clone, Copy, PartialEq, Eq, Structural)]
pub struct AcquireError;

impl View for Semaphore {
    type V = SemaphoreView;

    closed spec fn view(&self) -> SemaphoreView {
        SemaphoreView { permits: self.permits as nat, waiters: self.waiters@ }
    }
}

impl Semaphore {
    /// A semaphore with `permits` permits and nobody waiting.
    pub fn new(permits: usize) -> (semaphore: Semaphore)
        ensures
            semaphore@ == (SemaphoreView { permits: permits as nat, waiters: Seq::empty() }),
    {
        Semaphore { permits, waiters: VecDeque::new() }
    }

    /// The permits that can be had now.
    pub fn available_permits(&self) -> (permits: usize)
        ensures
            permits == self@.permits,
    {
        self.permits
    }

    /// Gives one permit back and wakes whoever has waited longest; that one
    /// no longer waits.
    pub fn release(&mut self)
        requires
            old(self)@.permits < usize::MAX,
        ensures
            final(self)@.permits == old(self)@.permits + 1,
            final(self)@.waiters == if old(self)@.waiters.len() > 0 {
                old(self)@.waiters.drop_first()
            } else {
                old(self)@.waiters
            },
    {
        self.permits = self.permits + 1;
        match self.waiters.pop_front() {
            Some(waker) => {
                proof {
                    assert(self.waiters@ =~= old(self).waiters@.drop_first());
                }
                waker.wake();
            },
            None => {},
        }
    }

    /// Takes a permit if there is one. If there is none, a clone of `waker`
    /// goes into `waiter` and to the back of those who wait, and the poll is
    /// pending.
    pub fn poll_acquire(&mut self, waker: &Waker, waiter: &mut Waiter) -> (r: Poll<
        Result<(), AcquireError>,
    >)
        ensures
            old(self)@.permits > 0 ==> r == Poll::Ready(Ok::<(), AcquireError>(()))
                && final(self)@ == (SemaphoreView {
                permits: (old(self)@.permits - 1) as nat,
                ..old(self)@
            }) && *final(waiter) == *old(waiter),
            old(self)@.permits == 0 ==> r is Pending && final(self)@ == (SemaphoreView {
                waiters: old(self)@.waiters.push(*waker),
                ..old(self)@
            }) && final(waiter).waker == Some(*waker),
    {
        if self.permits > 0 {
            self.permits = self.permits - 1;
            return Poll::Ready(Ok(()));
        }
        waiter.waker = Some(waker.clone());
        self.waiters.push_back(waker.clone());
        Poll::Pending
    }

    /// The attempt to acquire a permit, to be polled with `Acquire::poll`.
    pub fn acquire(&self) -> (acquire: Acquire)
        ensures
            acquire.waiter.waker is None,
    {
        Acquire::new()
    }
}

impl Waiter {
    /// A party that has not had to wait yet.
    pub fn new() -> (waiter: Waiter)
        ensures
            waiter.waker is None,
    {
        Waiter { waker: None }
    }
}

impl Acquire {
    /// An attempt that has not been polled.
    pub fn new() -> (acquire: Acquire)
        ensures
            acquire.waiter.waker is None,
    {
        Acquire { waiter: Waiter::new() }
    }

    /// One poll of the attempt on `semaphore`: `Semaphore::poll_acquire` with
    /// the attempt's own waiter.
    pub fn poll(&mut self, semaphore: &mut Semaphore, waker: &Waker) -> (r: Poll<
        Result<(), AcquireError>,
    >)
        ensures
            old(semaphore)@.permits > 0 ==> r == Poll::Ready(Ok::<(), AcquireError>(()))
                && final(semaphore)@ == (SemaphoreView {
                permits: (old(semaphore)@.permits - 1) as nat,
                ..old(semaphore)@
            }) && *final(self) == *old(self),
            old(semaphore)@.permits == 0 ==> r is Pending && final(semaphore)@ == (SemaphoreView {
                waiters: old(semaphore)@.waiters.push(*waker),
                ..old(semaphore)@
            }) && final(self).waiter.waker == Some(*waker),
    {
        semaphore.poll_acquire(waker, &mut self.waiter)
    }
}

} // verus!
