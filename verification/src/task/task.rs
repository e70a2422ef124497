//! The executor's handle on a task.

use vstd::prelude::*;
use crate::runtime::runtime::Runtime;

verus! {

/// A task as the ready-queue holds it: the number under which the executor
/// keeps the task's record.
#[derive(Debug, Clone, Copy, PartialEq, Eq, Structural)]
pub struct Task {
    pub raw: usize,
}

impl Task {
    /// The number of the task.
    pub fn id(&self) -> (id: usize)
        ensures
            id == self.raw,
    {
        self.raw
    }

    /// Puts the task onto the ready-queue of `runtime`, unless it is there
    /// already or is complete.
    pub fn schedule<F, T>(self, runtime: &mut Runtime<F, T>)
        requires
            old(runtime).wf(),
            old(runtime).tasks().dom().contains(self.raw),
        ensures
            final(runtime).wf(),
            final(runtime).tasks() == old(runtime).tasks().insert(
                self.raw,
                old(runtime).tasks()[self.raw].woken(),
            ),
            final(runtime).queue() == if old(runtime).tasks()[self.raw].wake_enqueues() {
                old(runtime).queue().push(self.raw)
            } else {
                old(runtime).queue()
            },
            final(runtime).current() == old(runtime).current(),
    {
        runtime.wake_by_ref(self.raw);
    }
}

} // verus!
