//! Spawning onto the active runtime.

use vstd::prelude::*;
use crate::runtime::runtime::Runtime;
use crate::task::join::JoinHandle;
use crate::task::raw::RawTaskView;

verus! {

/// Spawns a task for `future` onto `runtime`, the executor of the runtime
/// that is active on the calling thread, and returns the handle by which the
/// task's output is awaited. The task is polled for the first time when the
/// driver next drains the ready-queue.
pub fn spawn<F, T>(runtime: &mut Runtime<F, T>, future: F) -> (handle: JoinHandle<T>)
    requires
        old(runtime).wf(),
    ensures
        final(runtime).wf(),
        !old(runtime).tasks().dom().contains(handle.raw),
        final(runtime).tasks() == old(runtime).tasks().insert(
            handle.raw,
            RawTaskView::<F, T>::spawned(future),
        ),
        final(runtime).queue() == old(runtime).queue().push(handle.raw),
        final(runtime).current() == old(runtime).current(),
{
    runtime.spawn(future)
}

} // verus!
