//! The handle through which the output of a spawned task is awaited.

use vstd::prelude::*;
use std::marker::PhantomData;
use std::task::Poll;
use std::task::Waker;
use crate::runtime::runtime::Detached;
use crate::runtime::runtime::Runtime;

verus! {

/// A handle to a spawned task. Whoever holds it can await the task's output;
/// dropping it detaches the task and does not stop it.
pub struct JoinHandle<T> {
    /// The number of the task's record.
    pub raw: usize,
    pub _marker: PhantomData<T>,
}

/// What one poll of a join handle gives.
#[verifier::reject_recursive_types(T)]
pub struct JoinPoll<T> {
    /// Ready with the task's output; pending while the task runs.
    pub result: Poll<T>,
    /// The waker that the poll has no more use for: the caller's own where the
    /// result is ready, else the one that the caller's displaced in the join
    /// slot, if any.
    pub spare: Option<Waker>,
}

impl<T> JoinHandle<T> {
    /// The handle of the task with this number.
    pub fn new(raw: usize) -> (handle: JoinHandle<T>)
        ensures
            handle.raw == raw,
    {
        JoinHandle { raw, _marker: PhantomData }
    }

    /// The number of the task.
    pub fn id(&self) -> (id: usize)
        ensures
            id == self.raw,
    {
        self.raw
    }

    /// One poll of the handle on `runtime`, the executor that holds the task:
    /// ready with the task's output once the task is complete, which moves
    /// the output out of the task for good; pending before, with `waker` in
    /// the task's join slot. A handle that has yielded the output is not
    /// polled again.
    pub fn poll<F>(&self, runtime: &mut Runtime<F, T>, waker: Waker) -> (poll: JoinPoll<T>)
        requires
            old(runtime).wf(),
            old(runtime).tasks().dom().contains(self.raw),
            old(runtime).tasks()[self.raw].state.join_handle,
            old(runtime).tasks()[self.raw].state.complete ==> old(runtime).tasks()[self.raw].has_output(),
        ensures
            final(runtime).wf(),
            final(runtime).queue() == old(runtime).queue(),
            final(runtime).current() == old(runtime).current(),
            old(runtime).tasks()[self.raw].state.complete ==> {
                &&& poll.result == Poll::Ready(old(runtime).tasks()[self.raw].output())
                &&& poll.spare == Some(waker)
                &&& final(runtime).tasks() == old(runtime).tasks().insert(
                    self.raw,
                    old(runtime).tasks()[self.raw].consumed(),
                )
            },
            !old(runtime).tasks()[self.raw].state.complete ==> {
                &&& poll.result is Pending
                &&& poll.spare == old(runtime).tasks()[self.raw].waker
                &&& final(runtime).tasks() == old(runtime).tasks().insert(
                    self.raw,
                    old(runtime).tasks()[self.raw].awaited(waker),
                )
            },
    {
        runtime.poll_join(self, waker)
    }

    /// Gives the handle up: the task is detached from it and goes on.
    pub fn detach<F>(self, runtime: &mut Runtime<F, T>) -> (detached: Detached<F, T>)
        requires
            old(runtime).wf(),
            old(runtime).tasks().dom().contains(self.raw),
            old(runtime).tasks()[self.raw].state.join_handle,
        ensures
            final(runtime).wf(),
            final(runtime).queue() == old(runtime).queue(),
            final(runtime).current() == old(runtime).current(),
            detached.waker == old(runtime).tasks()[self.raw].waker,
            detached.released is Some == !old(runtime).tasks()[self.raw].detached().live(),
            detached.released is Some ==> detached.released->0@ == old(runtime).tasks()[self.raw].detached() && final(runtime).tasks() == old(runtime).tasks().remove(self.raw),
            detached.released is None ==> final(runtime).tasks() == old(runtime).tasks().insert(
                self.raw,
                old(runtime).tasks()[self.raw].detached(),
            ),
    {
        runtime.drop_join_handle(self)
    }
}

} // verus!
