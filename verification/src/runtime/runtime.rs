//! The executor's state: every spawned task's record under the task's
//! number, and the FIFO of the tasks that are ready to be polled.

use vstd::prelude::*;
use std::collections::VecDeque;
use std::io;
use std::task::Poll;
use std::task::Waker;
use crate::task::join::JoinHandle;
use crate::task::join::JoinPoll;
use crate::task::raw::RawTask;
use crate::task::raw::RawTaskView;
use crate::task::raw::Status;
use crate::task::state::max_ref_count;
use crate::task::task::Task;
use crate::std_specs::io_error_kind;
use crate::std_specs::kind_of;
use crate::std_specs::IoErrorKind;

verus! {

/// What holds of the records, the ready-queue and the task being polled
/// between any two operations of the executor:
/// - every record is consistent and live: a record is there exactly as long
///   as somebody holds a reference to it;
/// - a task is running exactly if it is the one being polled;
/// - the ready-queue holds no task twice, and holds exactly the tasks whose
///   `SCHEDULED` flag is set.
pub open spec fn consistent<F, T>(
    tasks: Map<usize, RawTaskView<F, T>>,
    queue: Seq<usize>,
    current: Option<usize>,
) -> bool {
    &&& forall|id: usize| #[trigger]
        tasks.dom().contains(id) ==> {
            &&& tasks[id].wf()
            &&& tasks[id].live()
            &&& tasks[id].state.running == (current == Some(id))
        }
    &&& current matches Some(id) ==> tasks.dom().contains(id)
    &&& queue.no_duplicates()
    &&& forall|id: usize| #[trigger]
        queue.contains(id) == (tasks.dom().contains(id) && tasks[id].state.scheduled)
}

/// The queue without `id`.
pub open spec fn without(queue: Seq<usize>, id: usize) -> Seq<usize> {
    if queue.contains(id) {
        queue.remove(queue.index_of(id))
    } else {
        queue
    }
}

/// The ready-queue that goes with a record of task `id` whose `SCHEDULED`
/// flag is `scheduled`: the task is in it, at the back if it was not there,
/// or it is not.
pub open spec fn queue_with(queue: Seq<usize>, id: usize, scheduled: bool) -> Seq<usize> {
    if !scheduled {
        without(queue, id)
    } else if queue.contains(id) {
        queue
    } else {
        queue.push(id)
    }
}

/// The task being polled that goes with a record of task `id` whose
/// `RUNNING` flag is `running`.
pub open spec fn current_with(current: Option<usize>, id: usize, running: bool) -> Option<usize> {
    if running {
        Some(id)
    } else if current == Some(id) {
        None
    } else {
        current
    }
}

/// The executor's state. `F` is the type of the futures that it drives, `T`
/// the type of their outputs.
pub struct Runtime<F, T> {
    /// The record of each task, at the index that is the task's number; `None`
    /// where no task has that number now.
    tasks: Vec<Option<RawTask<F, T>>>,
    /// Numbers below `tasks.len()` that no task has now.
    free: Vec<usize>,
    /// The ready-queue.
    queue: VecDeque<usize>,
    /// The task that is being polled.
    current: Option<usize>,
}

impl<F, T> Runtime<F, T> {
    /// The records of the tasks that somebody still holds, each under its
    /// number.
    pub closed spec fn tasks(&self) -> Map<usize, RawTaskView<F, T>> {
        Map::new(
            |id: usize| id < self.tasks@.len() && self.tasks@[id as int] is Some,
            |id: usize| self.tasks@[id as int]->0@,
        )
    }

    /// The ready-queue, front first.
    pub closed spec fn queue(&self) -> Seq<usize> {
        self.queue@
    }

    /// The task that the executor has taken off the queue and not yet
    /// finished polling.
    pub closed spec fn current(&self) -> Option<usize> {
        self.current
    }

    /// The numbers on the free list are distinct and name empty slots.
    pub closed spec fn free_ok(&self) -> bool {
        &&& self.free@.no_duplicates()
        &&& forall|j: int|
            0 <= j < self.free@.len() ==> (#[trigger] self.free@[j]) < self.tasks@.len()
                && self.tasks@[self.free@[j] as int] is None
    }

    /// The records, the ready-queue and the task being polled are
    /// `consistent`.
    pub open spec fn inv(&self) -> bool {
        consistent(self.tasks(), self.queue(), self.current())
    }

    /// The executor's state is consistent.
    pub open spec fn wf(&self) -> bool {
        &&& self.free_ok()
        &&& self.inv()
    }

    /// An executor without tasks.
    pub fn new() -> (runtime: Runtime<F, T>)
        ensures
            runtime.wf(),
            runtime.tasks() == Map::<usize, RawTaskView<F, T>>::empty(),
            runtime.queue() == Seq::<usize>::empty(),
            runtime.current() is None,
    {
        let runtime = Runtime {
            tasks: Vec::new(),
            free: Vec::new(),
            queue: VecDeque::new(),
            current: None,
        };
        assert(runtime.tasks() =~= Map::<usize, RawTaskView<F, T>>::empty());
        assert(runtime.queue() =~= Seq::<usize>::empty());
        runtime
    }

    /// Stores `record` as the record of task `id`, which has one.
    fn store(&mut self, id: usize, record: RawTask<F, T>)
        requires
            old(self).free_ok(),
            old(self).tasks().dom().contains(id),
        ensures
            final(self).free_ok(),
            final(self).tasks() == old(self).tasks().insert(id, record@),
            final(self).queue() == old(self).queue(),
            final(self).current() == old(self).current(),
    {
        self.tasks[id] = Some(record);
        proof {
            assert(final(self).tasks() =~= old(self).tasks().insert(id, record@));
            assert(final(self).free@ == old(self).free@);
        }
    }

    /// Takes the record of task `id` out of its slot, which stays the
    /// task's.
    fn take(&mut self, id: usize) -> (record: RawTask<F, T>)
        requires
            old(self).tasks().dom().contains(id),
        ensures
            record@ == old(self).tasks()[id],
            final(self).tasks@ == old(self).tasks@.update(id as int, None),
            final(self).free@ == old(self).free@,
            final(self).queue() == old(self).queue(),
            final(self).current() == old(self).current(),
    {
        match self.tasks[id].take() {
            Some(record) => record,
            None => vstd::pervasive::unreached(),
        }
    }

    /// Puts `record` back into the slot that `take` has emptied.
    fn put(&mut self, id: usize, record: RawTask<F, T>, Ghost(before): Ghost<Runtime<F, T>>)
        requires
            before.free_ok(),
            before.tasks().dom().contains(id),
            old(self).tasks@ == before.tasks@.update(id as int, None),
            old(self).free@ == before.free@,
        ensures
            final(self).free_ok(),
            final(self).tasks() == before.tasks().insert(id, record@),
            final(self).queue() == old(self).queue(),
            final(self).current() == old(self).current(),
    {
        self.tasks[id] = Some(record);
        proof {
            assert(final(self).tasks() =~= before.tasks().insert(id, record@));
        }
    }

    /// Gives the number of a task whose slot `take` has emptied to the free
    /// list: the task is gone.
    fn retire(&mut self, id: usize, Ghost(before): Ghost<Runtime<F, T>>)
        requires
            before.free_ok(),
            before.tasks().dom().contains(id),
            old(self).tasks@ == before.tasks@.update(id as int, None),
            old(self).free@ == before.free@,
        ensures
            final(self).free_ok(),
            final(self).tasks() == before.tasks().remove(id),
            final(self).queue() == old(self).queue(),
            final(self).current() == old(self).current(),
    {
        proof {
            assert(!before.free@.contains(id));
            lemma_push_no_duplicates(before.free@, id);
        }
        self.free.push(id);
        proof {
            assert(final(self).tasks() =~= before.tasks().remove(id));
            assert forall|j: int| 0 <= j < final(self).free@.len() implies (#[trigger] final(self).free@[j]) < final(self).tasks@.len() && final(self).tasks@[final(self).free@[j] as int]
                is None by {
                if j < before.free@.len() {
                    assert(final(self).free@[j] == before.free@[j]);
                }
            }
        }
    }

    /// Puts `record` back where it still has an owner, and hands it out
    /// where it has none.
    fn settle(
        &mut self,
        id: usize,
        record: RawTask<F, T>,
        dealloc: bool,
        Ghost(before): Ghost<Runtime<F, T>>,
    ) -> (released: Option<RawTask<F, T>>)
        requires
            before.free_ok(),
            before.tasks().dom().contains(id),
            old(self).tasks@ == before.tasks@.update(id as int, None),
            old(self).free@ == before.free@,
        ensures
            final(self).free_ok(),
            final(self).queue() == old(self).queue(),
            final(self).current() == old(self).current(),
            released is Some == dealloc,
            dealloc ==> released->0 == record && final(self).tasks() == before.tasks().remove(id),
            !dealloc ==> final(self).tasks() == before.tasks().insert(id, record@),
    {
        if dealloc {
            self.retire(id, Ghost(before));
            Some(record)
        } else {
            self.put(id, record, Ghost(before));
            None
        }
    }

    /// Takes task `id` off the ready-queue, wherever it stands there.
    fn unqueue(&mut self, id: usize)
        requires
            old(self).queue().no_duplicates(),
        ensures
            final(self).queue() == without(old(self).queue(), id),
            final(self).tasks@ == old(self).tasks@,
            final(self).free@ == old(self).free@,
            final(self).current() == old(self).current(),
    {
        let mut i: usize = 0;
        while i < self.queue.len()
            invariant
                i <= self.queue@.len(),
                self.queue@ == old(self).queue@,
                self.queue@.no_duplicates(),
                self.tasks@ == old(self).tasks@,
                self.free@ == old(self).free@,
                self.current == old(self).current,
                forall|j: int| 0 <= j < i ==> self.queue@[j] != id,
            decreases self.queue@.len() - i,
        {
            if self.queue[i] == id {
                proof {
                    lemma_without_at(self.queue@, id, i as int);
                }
                let _ = self.queue.remove(i);
                return ;
            }
            i += 1;
        }
        assert(!self.queue@.contains(id));
    }

    /// Spawns a task for `future`: the task gets a record under a number that
    /// no task has, with two references, and goes to the back of the
    /// ready-queue. Returns the join handle, which holds one of the two
    /// references.
    pub fn spawn(&mut self, future: F) -> (handle: JoinHandle<T>)
        requires
            old(self).wf(),
        ensures
            final(self).wf(),
            !old(self).tasks().dom().contains(handle.raw),
            final(self).tasks() == old(self).tasks().insert(
                handle.raw,
                RawTaskView::<F, T>::spawned(future),
            ),
            final(self).queue() == old(self).queue().push(handle.raw),
            final(self).current() == old(self).current(),
    {
        let task = RawTask::new(future);
        let id = match self.free.pop() {
            Some(id) => {
                assert(old(self).free@[old(self).free@.len() - 1] == id);
                self.tasks[id] = Some(task);
                id
            },
            None => {
                let id = self.tasks.len();
                self.tasks.push(Some(task));
                id
            },
        };
        self.queue.push_back(id);
        proof {
            let record = RawTaskView::<F, T>::spawned(future);
            assert(final(self).tasks() =~= old(self).tasks().insert(id, record));
            lemma_record_stored(old(self).tasks(), old(self).queue(), old(self).current(), id, record);
            assert forall|j: int| 0 <= j < final(self).free@.len() implies (#[trigger] final(self).free@[j]) < final(self).tasks@.len() && final(self).tasks@[final(self).free@[j] as int]
                is None by {
                assert(final(self).free@[j] == old(self).free@[j]);
            }
        }
        JoinHandle::new(id)
    }

    /// Whether a task has the number `id`.
    pub fn contains(&self, id: usize) -> (b: bool)
        ensures
            b == self.tasks().dom().contains(id),
    {
        id < self.tasks.len() && self.tasks[id].is_some()
    }

    /// The record of task `id`.
    pub fn task(&self, id: usize) -> (task: Option<&RawTask<F, T>>)
        ensures
            task is Some == self.tasks().dom().contains(id),
            task is Some ==> task->0@ == self.tasks()[id],
    {
        if id < self.tasks.len() {
            self.tasks[id].as_ref()
        } else {
            None
        }
    }

    /// The task that is being polled, if one is.
    pub fn polling(&self) -> (task: Option<Task>)
        ensures
            task is Some == self.current() is Some,
            task is Some ==> task->0.raw == self.current()->0,
    {
        match self.current {
            Some(raw) => Some(Task { raw }),
            None => None,
        }
    }

    /// How many tasks wait in the ready-queue.
    pub fn queued(&self) -> (n: usize)
        ensures
            n == self.queue().len(),
    {
        self.queue.len()
    }

    /// A waker of task `id` was cloned: the task has one more reference.
    pub fn clone_waker(&mut self, id: usize)
        requires
            old(self).wf(),
            old(self).tasks().dom().contains(id),
            old(self).tasks()[id].state.ref_count < max_ref_count(),
        ensures
            final(self).wf(),
            final(self).tasks() == old(self).tasks().insert(id, old(self).tasks()[id].retained()),
            final(self).queue() == old(self).queue(),
            final(self).current() == old(self).current(),
    {
        let mut record = self.take(id);
        record.clone_waker();
        self.put(id, record, Ghost(*old(self)));
        proof {
            lemma_record_stored(
                old(self).tasks(),
                old(self).queue(),
                old(self).current(),
                id,
                old(self).tasks()[id].retained(),
            );
        }
    }

    /// Wakes task `id` through a waker that stays with its owner: the task
    /// goes to the back of the ready-queue unless it is there already or is
    /// complete. However often a task is woken before it is polled, it is in
    /// the queue once.
    pub fn wake_by_ref(&mut self, id: usize)
        requires
            old(self).wf(),
            old(self).tasks().dom().contains(id),
        ensures
            final(self).wf(),
            final(self).tasks() == old(self).tasks().insert(id, old(self).tasks()[id].woken()),
            final(self).queue() == if old(self).tasks()[id].wake_enqueues() {
                old(self).queue().push(id)
            } else {
                old(self).queue()
            },
            final(self).current() == old(self).current(),
    {
        let mut record = self.take(id);
        let enqueue = record.wake_by_ref();
        self.put(id, record, Ghost(*old(self)));
        if enqueue {
            self.queue.push_back(id);
        }
        proof {
            lemma_record_stored(
                old(self).tasks(),
                old(self).queue(),
                old(self).current(),
                id,
                old(self).tasks()[id].woken(),
            );
        }
    }

    /// A waker of task `id` was dropped: the task has one reference less. If
    /// that was the last one, the record leaves the executor and is handed to
    /// the caller, who drops it.
    pub fn drop_waker(&mut self, id: usize) -> (released: Option<RawTask<F, T>>)
        requires
            old(self).wf(),
            old(self).tasks().dom().contains(id),
            old(self).tasks()[id].wakers() > 0,
        ensures
            final(self).wf(),
            final(self).queue() == old(self).queue(),
            final(self).current() == old(self).current(),
            released is Some == !old(self).tasks()[id].released().live(),
            released is Some == (old(self).tasks()[id].state.ref_count == 1),
            released is Some ==> released->0@ == old(self).tasks()[id].released()
                && final(self).tasks() == old(self).tasks().remove(id),
            released is None ==> final(self).tasks() == old(self).tasks().insert(
                id,
                old(self).tasks()[id].released(),
            ),
    {
        let mut record = self.take(id);
        let dealloc = record.drop_waker();
        proof {
            if dealloc {
                lemma_record_removed(old(self).tasks(), old(self).queue(), old(self).current(), id);
            } else {
                lemma_record_stored(
                    old(self).tasks(),
                    old(self).queue(),
                    old(self).current(),
                    id,
                    old(self).tasks()[id].released(),
                );
            }
        }
        self.settle(id, record, dealloc, Ghost(*old(self)))
    }

    /// Wakes task `id` through a waker that is given up with the call: as
    /// `wake_by_ref`, then as `drop_waker`. One logical wake takes one
    /// reference, the waker's own, and no other.
    pub fn wake(&mut self, id: usize) -> (released: Option<RawTask<F, T>>)
        requires
            old(self).wf(),
            old(self).tasks().dom().contains(id),
            old(self).tasks()[id].wakers() > 0,
        ensures
            final(self).wf(),
            final(self).queue() == if old(self).tasks()[id].wake_enqueues() {
                old(self).queue().push(id)
            } else {
                old(self).queue()
            },
            final(self).current() == old(self).current(),
            released is Some == !old(self).tasks()[id].woken().released().live(),
            released is Some ==> released->0@ == old(self).tasks()[id].woken().released()
                && final(self).tasks() == old(self).tasks().remove(id),
            released is None ==> final(self).tasks() == old(self).tasks().insert(
                id,
                old(self).tasks()[id].woken().released(),
            ),
    {
        self.wake_by_ref(id);
        let released = self.drop_waker(id);
        proof {
            let woken = old(self).tasks()[id].woken();
            if released is Some {
                assert(final(self).tasks() =~= old(self).tasks().remove(id));
            } else {
                assert(final(self).tasks() =~= old(self).tasks().insert(id, woken.released()));
            }
        }
        released
    }

    /// Takes the task at the front of the ready-queue to be polled: it is no
    /// longer scheduled, and is running until `finish_poll`. Nothing where the
    /// queue is empty. One task is polled at a time.
    pub fn next_task(&mut self) -> (task: Option<Task>)
        requires
            old(self).wf(),
            old(self).current() is None,
        ensures
            final(self).wf(),
            old(self).queue().len() == 0 ==> task is None && final(self).tasks() == old(self).tasks() && final(self).queue() == old(self).queue() && final(self).current() is None,
            old(self).queue().len() > 0 ==> task == Some(Task { raw: old(self).queue()[0] })
                && old(self).tasks().dom().contains(old(self).queue()[0])
                && final(self).tasks() == old(self).tasks().insert(
                old(self).queue()[0],
                old(self).tasks()[old(self).queue()[0]].started(),
            ) && final(self).queue() == old(self).queue().drop_first() && final(self).current()
                == Some(old(self).queue()[0]),
    {
        let id = match self.queue.pop_front() {
            Some(id) => id,
            None => {
                return None;
            },
        };
        proof {
            assert(old(self).queue().contains(id));
            assert(self.queue@ =~= old(self).queue().drop_first());
            lemma_without_at(old(self).queue(), id, 0);
            assert(old(self).queue().remove(0) =~= old(self).queue().drop_first());
        }
        let ghost popped = *self;
        let mut record = self.take(id);
        record.start();
        self.put(id, record, Ghost(popped));
        self.current = Some(id);
        proof {
            lemma_record_stored(
                old(self).tasks(),
                old(self).queue(),
                old(self).current(),
                id,
                old(self).tasks()[id].started(),
            );
        }
        Some(Task { raw: id })
    }

    /// The future of the task that is being polled.
    pub fn future(&self, task: &Task) -> (future: &F)
        requires
            self.wf(),
            self.current() == Some(task.raw),
        ensures
            self.tasks()[task.raw].status == Status::<F, T>::Running(*future),
    {
        assert(self.tasks().dom().contains(task.raw));
        match &self.tasks[task.raw] {
            Some(record) => record.future(),
            None => vstd::pervasive::unreached(),
        }
    }

    /// Takes in what polling the current task's future returned.
    ///
    /// Pending: the task stops running. It stays in the ready-queue if a wake
    /// came while it was polled, else it waits to be woken.
    ///
    /// Ready: the task is complete and holds its output; the executor's
    /// reference to it is given back; if the task was woken while it was
    /// polled, it leaves the ready-queue. The caller gets the spent future,
    /// the join waker to wake, and the record itself if nobody holds the task
    /// any more, in which case the output goes with the record.
    pub fn finish_poll(&mut self, task: Task, outcome: Poll<T>) -> (done: Option<Completion<F, T>>)
        requires
            old(self).wf(),
            old(self).current() == Some(task.raw),
        ensures
            final(self).wf(),
            final(self).current() is None,
            outcome is Pending ==> done is None && final(self).queue() == old(self).queue()
                && final(self).tasks() == old(self).tasks().insert(
                task.raw,
                old(self).tasks()[task.raw].suspended(),
            ),
            outcome matches Poll::Ready(output) ==> {
                let record = old(self).tasks()[task.raw].completed(output);
                &&& done is Some
                &&& old(self).tasks()[task.raw].status == Status::<F, T>::Running(done->0.future)
                &&& done->0.join_waker == old(self).tasks()[task.raw].waker
                &&& final(self).queue() == without(old(self).queue(), task.raw)
                &&& done->0.released is Some == !record.live()
                &&& done->0.released is Some ==> done->0.released->0@ == record && final(self).tasks() == old(self).tasks().remove(task.raw)
                &&& done->0.released is None ==> final(self).tasks() == old(self).tasks().insert(
                    task.raw,
                    record,
                )
            },
    {
        let id = task.raw;
        let mut record = self.take(id);
        let finished = record.poll(outcome);
        self.current = None;
        proof {
            let polled = old(self).tasks()[id].polled(outcome);
            if polled.live() {
                lemma_record_stored(
                    old(self).tasks(),
                    old(self).queue(),
                    old(self).current(),
                    id,
                    polled,
                );
            } else {
                lemma_record_removed(old(self).tasks(), old(self).queue(), old(self).current(), id);
            }
        }
        match finished {
            None => {
                self.put(id, record, Ghost(*old(self)));
                None
            },
            Some(finished) => {
                self.unqueue(id);
                let released = self.settle(id, record, finished.dealloc, Ghost(*old(self)));
                Some(
                    Completion {
                        future: finished.future,
                        join_waker: finished.join_waker,
                        released,
                    },
                )
            },
        }
    }

    /// One poll of the join handle of a task, with a waker of the caller's.
    ///
    /// If the task is complete, the output moves out of its status slot and
    /// is returned, with the caller's waker as the spare; the slot holds
    /// nothing from then on, so the handle is not polled again. If the task
    /// still runs, the caller's waker takes the join slot, in place of any
    /// waker from an earlier poll, which is the spare; the poll is pending.
    pub fn poll_join(&mut self, handle: &JoinHandle<T>, waker: Waker) -> (poll: JoinPoll<T>)
        requires
            old(self).wf(),
            old(self).tasks().dom().contains(handle.raw),
            old(self).tasks()[handle.raw].state.join_handle,
            old(self).tasks()[handle.raw].state.complete ==> old(self).tasks()[handle.raw].has_output(),
        ensures
            final(self).wf(),
            final(self).queue() == old(self).queue(),
            final(self).current() == old(self).current(),
            old(self).tasks()[handle.raw].state.complete ==> {
                &&& poll.result == Poll::Ready(old(self).tasks()[handle.raw].output())
                &&& poll.spare == Some(waker)
                &&& final(self).tasks() == old(self).tasks().insert(
                    handle.raw,
                    old(self).tasks()[handle.raw].consumed(),
                )
            },
            !old(self).tasks()[handle.raw].state.complete ==> {
                &&& poll.result is Pending
                &&& poll.spare == old(self).tasks()[handle.raw].waker
                &&& final(self).tasks() == old(self).tasks().insert(
                    handle.raw,
                    old(self).tasks()[handle.raw].awaited(waker),
                )
            },
    {
        let id = handle.raw;
        let mut record = self.take(id);
        let poll = if record.is_complete() {
            let output = record.get_output();
            JoinPoll { result: Poll::Ready(output), spare: Some(waker) }
        } else {
            let displaced = record.register_join_waker(waker);
            JoinPoll { result: Poll::Pending, spare: displaced }
        };
        proof {
            lemma_record_stored(
                old(self).tasks(),
                old(self).queue(),
                old(self).current(),
                id,
                record@,
            );
        }
        self.put(id, record, Ghost(*old(self)));
        poll
    }

    /// The join handle of a task is dropped: the task is detached. It loses
    /// its join handle and the reference that the handle held, and goes on
    /// running if it was not complete. The caller gets the waker that the
    /// handle had registered, and the record itself if nobody holds the task
    /// any more; an output that nobody took goes with the record.
    pub fn drop_join_handle(&mut self, handle: JoinHandle<T>) -> (detached: Detached<F, T>)
        requires
            old(self).wf(),
            old(self).tasks().dom().contains(handle.raw),
            old(self).tasks()[handle.raw].state.join_handle,
        ensures
            final(self).wf(),
            final(self).queue() == old(self).queue(),
            final(self).current() == old(self).current(),
            detached.waker == old(self).tasks()[handle.raw].waker,
            detached.released is Some == !old(self).tasks()[handle.raw].detached().live(),
            detached.released is Some ==> detached.released->0@ == old(self).tasks()[handle.raw].detached() && final(self).tasks() == old(self).tasks().remove(
                handle.raw,
            ),
            detached.released is None ==> final(self).tasks() == old(self).tasks().insert(
                handle.raw,
                old(self).tasks()[handle.raw].detached(),
            ),
    {
        let id = handle.raw;
        let mut record = self.take(id);
        let (waker, dealloc) = record.drop_join_handle();
        proof {
            if dealloc {
                lemma_record_removed(old(self).tasks(), old(self).queue(), old(self).current(), id);
            } else {
                lemma_record_stored(
                    old(self).tasks(),
                    old(self).queue(),
                    old(self).current(),
                    id,
                    old(self).tasks()[id].detached(),
                );
            }
        }
        let released = self.settle(id, record, dealloc, Ghost(*old(self)));
        Detached { waker, released }
    }

    /// What the driver does after it has polled the top-level future: it
    /// returns the output if the future is ready; it parks on the reactor if
    /// the future is pending and no task is ready to run; else it drains the
    /// ready-queue.
    pub fn turn<V>(&self, polled: &Poll<V>) -> (turn: Turn)
        ensures
            turn == next_turn(polled is Ready, self.queue().len()),
    {
        match polled {
            Poll::Ready(_) => Turn::Finish,
            Poll::Pending => {
                if self.queue.len() == 0 {
                    Turn::Park
                } else {
                    Turn::Drain
                }
            },
        }
    }
}

/// Whether an I/O error says that a signal interrupted the system call.
pub open spec fn interrupted(error: io::Error) -> bool {
    io_error_kind(error) == IoErrorKind::Interrupted
}

/// What the driver makes of the reactor's answer after it has parked: the
/// answer itself on success; nothing where a signal interrupted the wait,
/// which is transient, so that the driver goes on to its next turn; any other
/// failure of the kernel as the error that it is.
pub fn after_park<V>(answer: io::Result<V>) -> (r: io::Result<Option<V>>)
    ensures
        match answer {
            Ok(value) => r == Ok::<Option<V>, io::Error>(Some(value)),
            Err(error) => if interrupted(error) {
                r == Ok::<Option<V>, io::Error>(None)
            } else {
                r == Err::<Option<V>, io::Error>(error)
            },
        },
{
    match answer {
        Ok(value) => Ok(Some(value)),
        Err(error) => {
            if kind_of(&error) == IoErrorKind::Interrupted {
                Ok(None)
            } else {
                Err(error)
            }
        },
    }
}

/// What a poll that finished a task hands to the driver.
pub struct Completion<F, T> {
    /// The spent future.
    pub future: F,
    /// The waker of whoever awaits the output, to be woken.
    pub join_waker: Option<Waker>,
    /// The task's record, if nobody holds the task any more.
    pub released: Option<RawTask<F, T>>,
}

/// What dropping a join handle hands to the caller.
pub struct Detached<F, T> {
    /// The waker that the handle had registered.
    pub waker: Option<Waker>,
    /// The task's record, if nobody holds the task any more.
    pub released: Option<RawTask<F, T>>,
}

/// One step of the loop that drives a top-level future.
#[derive(Debug, Clone, Copy, PartialEq, Eq, Structural)]
pub enum Turn {
    /// The top-level future is ready: return its output.
    Finish,
    /// Nothing can run before an event comes: wait on the reactor without a
    /// timeout, wake whom the events fire, then drain the ready-queue.
    Park,
    /// Tasks are ready: poll them, front first, until the queue is empty.
    Drain,
}

/// The step that follows a poll of the top-level future. The driver parks
/// if, and only if, the future is pending and the ready-queue is empty.
pub open spec fn next_turn(ready: bool, queued: nat) -> Turn {
    if ready {
        Turn::Finish
    } else if queued == 0 {
        Turn::Park
    } else {
        Turn::Drain
    }
}

/// Storing a consistent, live record for a task keeps the executor
/// consistent, with the task in the ready-queue exactly if the record says
/// scheduled, and being polled exactly if the record says running. Where
/// those two flags are as they were, queue and current task are as they
/// were.
pub proof fn lemma_record_stored<F, T>(
    tasks: Map<usize, RawTaskView<F, T>>,
    queue: Seq<usize>,
    current: Option<usize>,
    id: usize,
    record: RawTaskView<F, T>,
)
    requires
        consistent(tasks, queue, current),
        record.wf(),
        record.live(),
        record.state.running ==> current is None || current == Some(id),
    ensures
        consistent(
            tasks.insert(id, record),
            queue_with(queue, id, record.state.scheduled),
            current_with(current, id, record.state.running),
        ),
        tasks.dom().contains(id) && record.state.scheduled == tasks[id].state.scheduled
            ==> queue_with(queue, id, record.state.scheduled) == queue,
        tasks.dom().contains(id) && record.state.running == tasks[id].state.running
            ==> current_with(current, id, record.state.running) == current,
        !queue.contains(id) && record.state.scheduled ==> queue_with(
            queue,
            id,
            record.state.scheduled,
        ) == queue.push(id),
{
    let stored = tasks.insert(id, record);
    let queued = queue_with(queue, id, record.state.scheduled);
    let polled = current_with(current, id, record.state.running);
    lemma_without(queue, id);
    if record.state.scheduled && !queue.contains(id) {
        lemma_push_no_duplicates(queue, id);
    }
    assert forall|other: usize| #[trigger]
        queued.contains(other) == (stored.dom().contains(other)
            && stored[other].state.scheduled) by {
        assert(queue.contains(other) == (tasks.dom().contains(other)
            && tasks[other].state.scheduled));
        lemma_push_contains(queue, id, other);
    }
    assert forall|other: usize| #[trigger] stored.dom().contains(other) implies stored[other].wf()
        && stored[other].live() && stored[other].state.running == (polled == Some(other)) by {
        if other != id {
            assert(tasks.dom().contains(other));
        }
    }
    if tasks.dom().contains(id) {
        assert(queue.contains(id) == tasks[id].state.scheduled);
    }
}

/// Taking a task's record away keeps the executor consistent, with the task
/// out of the ready-queue and no longer being polled.
pub proof fn lemma_record_removed<F, T>(
    tasks: Map<usize, RawTaskView<F, T>>,
    queue: Seq<usize>,
    current: Option<usize>,
    id: usize,
)
    requires
        consistent(tasks, queue, current),
    ensures
        consistent(tasks.remove(id), without(queue, id), current_with(current, id, false)),
        !queue.contains(id) ==> without(queue, id) == queue,
        tasks.dom().contains(id) && !tasks[id].state.scheduled ==> without(queue, id) == queue,
        tasks.dom().contains(id) && !tasks[id].state.running ==> current_with(current, id, false)
            == current,
{
    let rest = tasks.remove(id);
    lemma_without(queue, id);
    assert forall|other: usize| #[trigger]
        without(queue, id).contains(other) == (rest.dom().contains(other)
            && rest[other].state.scheduled) by {
        assert(queue.contains(other) == (tasks.dom().contains(other)
            && tasks[other].state.scheduled));
    }
    assert forall|other: usize| #[trigger] rest.dom().contains(other) implies rest[other].wf()
        && rest[other].live() && rest[other].state.running == (current_with(current, id, false)
        == Some(other)) by {
        assert(tasks.dom().contains(other));
    }
    if tasks.dom().contains(id) {
        assert(queue.contains(id) == tasks[id].state.scheduled);
    }
}

/// What a queue holds after a push: what it held, and the new item.
proof fn lemma_push_contains(queue: Seq<usize>, id: usize, other: usize)
    ensures
        queue.push(id).contains(other) == (queue.contains(other) || other == id),
{
    if queue.contains(other) {
        let at = choose|at: int| 0 <= at < queue.len() && queue[at] == other;
        assert(queue.push(id)[at] == other);
    }
    if other == id {
        assert(queue.push(id)[queue.len() as int] == id);
    }
}

/// A queue without repetition stays so when an item that it lacks is pushed.
proof fn lemma_push_no_duplicates(queue: Seq<usize>, id: usize)
    requires
        queue.no_duplicates(),
        !queue.contains(id),
    ensures
        queue.push(id).no_duplicates(),
{
    assert forall|i: int, j: int|
        0 <= i < queue.push(id).len() && 0 <= j < queue.push(id).len() && i != j implies queue.push(
        id,
    )[i] != queue.push(id)[j] by {
        if i < queue.len() && j < queue.len() {
        } else if i < queue.len() {
            assert(queue.contains(queue[i]));
        } else {
            assert(queue.contains(queue[j]));
        }
    }
}

/// In a queue without repetition, taking out the item at an index is taking
/// out the item.
proof fn lemma_without_at(queue: Seq<usize>, id: usize, at: int)
    requires
        queue.no_duplicates(),
        0 <= at < queue.len(),
        queue[at] == id,
    ensures
        queue.remove(at) == without(queue, id),
{
    assert(queue.contains(id));
    assert(queue.index_of(id) == at);
}

/// Taking an item out of a queue without repetition leaves a queue without
/// repetition that holds what the queue held, but for the item.
pub proof fn lemma_without(queue: Seq<usize>, id: usize)
    requires
        queue.no_duplicates(),
    ensures
        without(queue, id).no_duplicates(),
        forall|other: usize| #[trigger]
            without(queue, id).contains(other) == (queue.contains(other) && other != id),
{
    if queue.contains(id) {
        let at = queue.index_of(id);
        let rest = queue.remove(at);
        assert forall|i: int, j: int| 0 <= i < rest.len() && 0 <= j < rest.len() && i != j implies rest[i]
            != rest[j] by {
            let a = if i < at { i } else { i + 1 };
            let b = if j < at { j } else { j + 1 };
            assert(rest[i] == queue[a] && rest[j] == queue[b]);
        }
        assert forall|other: usize| #[trigger]
            rest.contains(other) == (queue.contains(other) && other != id) by {
            if rest.contains(other) {
                let i = choose|i: int| 0 <= i < rest.len() && rest[i] == other;
                let a = if i < at { i } else { i + 1 };
                assert(queue[a] == other);
            }
            if queue.contains(other) && other != id {
                let a = choose|a: int| 0 <= a < queue.len() && queue[a] == other;
                let i = if a < at { a } else { a - 1 };
                assert(rest[i] == other);
            }
        }
    }
}

} // verus!
