//! The task record: header and status slot, and what each operation of the
//! task's vtable and of its wakers does to them.

use vstd::prelude::*;
use std::task::Poll;
use std::task::Waker;
use super::header::Header;
use super::state::max_ref_count;
use super::state::StateView;

verus! {

/// The status of a task: the future while it runs, its output once it has
/// finished, nothing once the output has been taken.
pub enum Status<F, T> {
    Running(F),
    Finished(T),
    Consumed,
}

/// What a poll that finished a task leaves to its caller.
pub struct Finished<F> {
    /// The spent future.
    pub future: F,
    /// The waker of whoever awaits the output, to be woken.
    pub join_waker: Option<Waker>,
    /// Nobody holds the task any more: its record is to go.
    pub dealloc: bool,
}

/// The references that a record knows of by its flags: the executor's, from
/// spawn to completion, and the join handle's. Wakers hold the others.
pub open spec fn known_owners(state: StateView) -> nat {
    (if state.complete {
        0nat
    } else {
        1nat
    }) + (if state.join_handle {
        1nat
    } else {
        0nat
    })
}

/// What a task record holds.
pub struct RawTaskView<F, T> {
    /// The meaning of the state word.
    pub state: StateView,
    /// The waker in the header's join slot.
    pub waker: Option<Waker>,
    pub status: Status<F, T>,
}

impl<F, T> RawTaskView<F, T> {
    /// The record of a task that was just spawned for `future`: two
    /// references, one for the executor and one for the join handle,
    /// scheduled.
    pub open spec fn spawned(future: F) -> Self {
        RawTaskView {
            state: StateView {
                ref_count: 2,
                scheduled: true,
                running: false,
                complete: false,
                join_handle: true,
                join_waker: false,
            },
            waker: None,
            status: Status::Running(future),
        }
    }

    /// The number of wakers that hold the task.
    pub open spec fn wakers(self) -> int {
        self.state.ref_count - known_owners(self.state)
    }

    /// The record is consistent: every owner that the flags tell of is
    /// counted; the future is there until the task is complete; a complete
    /// task neither runs nor is scheduled; the join slot holds a waker when,
    /// and only when, the flag says so, and only for a join handle that
    /// exists.
    pub open spec fn wf(self) -> bool {
        &&& self.state.ref_count >= known_owners(self.state)
        &&& self.state.ref_count <= max_ref_count()
        &&& self.state.complete == !(self.status is Running)
        &&& self.state.complete ==> !self.state.running && !self.state.scheduled
        &&& self.state.join_waker == (self.waker is Some)
        &&& self.state.join_waker ==> self.state.join_handle
    }

    /// The record's allocation is live: somebody holds it.
    pub open spec fn live(self) -> bool {
        self.state.ref_count > 0
    }

    /// One reference more.
    pub open spec fn retained(self) -> Self {
        RawTaskView {
            state: StateView { ref_count: self.state.ref_count + 1, ..self.state },
            ..self
        }
    }

    /// One reference less.
    pub open spec fn released(self) -> Self {
        RawTaskView {
            state: StateView { ref_count: (self.state.ref_count - 1) as nat, ..self.state },
            ..self
        }
    }

    /// Whether a wake has to put the task on the ready-queue: not if it is
    /// there already, and not if it is complete.
    pub open spec fn wake_enqueues(self) -> bool {
        !self.state.scheduled && !self.state.complete
    }

    /// The record after a wake.
    pub open spec fn woken(self) -> Self {
        RawTaskView {
            state: StateView {
                scheduled: self.state.scheduled || !self.state.complete,
                ..self.state
            },
            ..self
        }
    }

    /// The record once the executor has taken the task off the queue to poll
    /// it.
    pub open spec fn started(self) -> Self {
        RawTaskView {
            state: StateView { scheduled: false, running: true, ..self.state },
            ..self
        }
    }

    /// The record after a poll that returned pending.
    pub open spec fn suspended(self) -> Self {
        RawTaskView { state: StateView { running: false, ..self.state }, ..self }
    }

    /// The record after the poll that returned `output`.
    pub open spec fn completed(self, output: T) -> Self {
        RawTaskView {
            state: StateView {
                running: false,
                scheduled: false,
                complete: true,
                join_waker: false,
                ref_count: (self.state.ref_count - 1) as nat,
                ..self.state
            },
            waker: None,
            status: Status::Finished(output),
        }
    }

    /// The record after a poll.
    pub open spec fn polled(self, outcome: Poll<T>) -> Self {
        match outcome {
            Poll::Pending => self.suspended(),
            Poll::Ready(output) => self.completed(output),
        }
    }

    /// Whether the status slot holds an output that nobody has taken.
    pub open spec fn has_output(self) -> bool {
        self.status is Finished
    }

    /// The output in the status slot.
    pub open spec fn output(self) -> T
        recommends
            self.has_output(),
    {
        self.status->Finished_0
    }

    /// The record after the output has been read.
    pub open spec fn consumed(self) -> Self {
        match self.status {
            Status::Finished(_) => RawTaskView { status: Status::Consumed, ..self },
            _ => self,
        }
    }

    /// The record with `waker` in the join slot.
    pub open spec fn awaited(self, waker: Waker) -> Self {
        RawTaskView {
            state: StateView { join_waker: true, ..self.state },
            waker: Some(waker),
            ..self
        }
    }

    /// The record after its join handle has gone.
    pub open spec fn detached(self) -> Self {
        RawTaskView {
            state: StateView {
                join_handle: false,
                join_waker: false,
                ref_count: (self.state.ref_count - 1) as nat,
                ..self.state
            },
            waker: None,
            ..self
        }
    }
}

/// A task record.
pub struct RawTask<F, T> {
    pub header: Header,
    pub status: Status<F, T>,
}

impl<F, T> View for RawTask<F, T> {
    type V = RawTaskView<F, T>;

    open spec fn view(&self) -> RawTaskView<F, T> {
        RawTaskView { state: self.header.state@, waker: self.header.waker, status: self.status }
    }
}

impl<F, T> RawTask<F, T> {
    /// The record of a task that was just spawned for `future`.
    pub fn new(future: F) -> (task: RawTask<F, T>)
        ensures
            task@ == RawTaskView::<F, T>::spawned(future),
            task@.wf(),
    {
        proof {
            lemma_two_fit();
        }
        RawTask { header: Header::new(), status: Status::Running(future) }
    }

    /// The number of references to the record.
    pub fn ref_count(&self) -> (count: usize)
        ensures
            count == self@.state.ref_count,
    {
        self.header.state.ref_count()
    }

    /// The number of wakers that hold the task: the references beyond the
    /// executor's and the join handle's.
    pub fn waker_count(&self) -> (count: usize)
        requires
            self@.wf(),
        ensures
            count == self@.wakers(),
    {
        let mut known: usize = 0;
        if !self.header.state.is_complete() {
            known = known + 1;
        }
        if self.header.state.has_join_handle() {
            known = known + 1;
        }
        self.header.state.ref_count() - known
    }

    /// Whether the task still has its join handle.
    pub fn has_join_handle(&self) -> (b: bool)
        ensures
            b == self@.state.join_handle,
    {
        self.header.state.has_join_handle()
    }

    /// Whether the future has finished.
    pub fn is_complete(&self) -> (b: bool)
        ensures
            b == self@.state.complete,
    {
        self.header.state.is_complete()
    }

    /// A waker of the task was cloned: one more reference.
    pub fn clone_waker(&mut self)
        requires
            old(self)@.wf(),
            old(self)@.state.ref_count < max_ref_count(),
        ensures
            final(self)@ == old(self)@.retained(),
            final(self)@.wf(),
    {
        self.header.state.ref_incr();
    }

    /// A reference to the task was dropped: the count goes down by one, and
    /// nothing else changes. Returns whether that was the last reference, so
    /// that the record is to be deallocated: the record goes if, and only if,
    /// the count goes from one to zero. The record stays consistent where the
    /// reference was a waker's.
    pub fn drop_waker(&mut self) -> (dealloc: bool)
        requires
            old(self)@.live(),
        ensures
            final(self)@ == old(self)@.released(),
            dealloc == !final(self)@.live(),
            dealloc == (old(self)@.state.ref_count == 1),
            old(self)@.wf() && old(self)@.wakers() > 0 ==> final(self)@.wf(),
    {
        self.header.state.ref_decr();
        self.header.state.ref_count() == 0
    }

    /// Marks the task as scheduled unless it is scheduled already or
    /// complete. Returns whether the caller has to put it on the ready-queue.
    /// No reference changes hands.
    pub fn wake_by_ref(&mut self) -> (enqueue: bool)
        requires
            old(self)@.wf(),
        ensures
            final(self)@ == old(self)@.woken(),
            final(self)@.wf(),
            enqueue == old(self)@.wake_enqueues(),
    {
        if self.header.state.is_scheduled() || self.header.state.is_complete() {
            false
        } else {
            self.header.state.set_scheduled();
            true
        }
    }

    /// Wakes the task through a waker that is given up with the call:
    /// `wake_by_ref`, then `drop_waker`. Returns whether the caller has to
    /// put the task on the ready-queue, and whether the record is to be
    /// deallocated.
    pub fn wake(&mut self) -> (r: (bool, bool))
        requires
            old(self)@.wf(),
            old(self)@.wakers() > 0,
        ensures
            final(self)@ == old(self)@.woken().released(),
            final(self)@.wf(),
            r.0 == old(self)@.wake_enqueues(),
            r.1 == !final(self)@.live(),
    {
        let enqueue = self.wake_by_ref();
        let dealloc = self.drop_waker();
        (enqueue, dealloc)
    }

    /// The executor took the task off the ready-queue to poll it.
    pub fn start(&mut self)
        requires
            old(self)@.wf(),
            old(self)@.state.scheduled,
        ensures
            final(self)@ == old(self)@.started(),
            final(self)@.wf(),
    {
        self.header.state.transition_to_running();
    }

    /// The future that the executor has to poll.
    pub fn future(&self) -> (future: &F)
        requires
            self@.wf(),
            !self@.state.complete,
        ensures
            self@.status == Status::<F, T>::Running(*future),
    {
        match &self.status {
            Status::Running(future) => future,
            _ => vstd::pervasive::unreached(),
        }
    }

    /// Takes in what polling the future returned.
    ///
    /// Pending: the task is no longer running; it waits to be woken, or, if a
    /// wake came while it was polled, stays scheduled. Nothing is returned.
    ///
    /// Ready: the task is complete, the status slot holds the output in place
    /// of the future, and the executor's reference is given back. The caller
    /// gets the spent future, the join waker to wake if one was registered
    /// (the slot is then empty), and whether the record is to be deallocated.
    /// A task that completes while it is scheduled is scheduled no more: the
    /// caller takes it off the ready-queue.
    pub fn poll(&mut self, outcome: Poll<T>) -> (finished: Option<Finished<F>>)
        requires
            old(self)@.wf(),
            old(self)@.state.running,
        ensures
            final(self)@ == old(self)@.polled(outcome),
            final(self)@.wf(),
            outcome is Pending ==> finished is None,
            outcome is Ready ==> {
                &&& finished is Some
                &&& old(self)@.status == Status::<F, T>::Running(finished->0.future)
                &&& finished->0.join_waker == old(self)@.waker
                &&& finished->0.dealloc == !final(self)@.live()
            },
    {
        match outcome {
            Poll::Pending => {
                self.header.state.transition_to_idle();
                None
            },
            Poll::Ready(output) => {
                let mut spent = Status::Finished(output);
                std::mem::swap(&mut self.status, &mut spent);
                self.header.state.transition_to_complete();
                self.header.state.unset_scheduled();
                self.header.state.unset_join_waker();
                self.header.state.ref_decr();
                let join_waker = self.header.take_waker();
                let dealloc = self.header.state.ref_count() == 0;
                match spent {
                    Status::Running(future) => Some(Finished { future, join_waker, dealloc }),
                    _ => vstd::pervasive::unreached(),
                }
            },
        }
    }

    /// Whether the status slot holds an output that nobody has taken.
    pub fn has_output(&self) -> (b: bool)
        ensures
            b == self@.has_output(),
    {
        match &self.status {
            Status::Finished(_) => true,
            _ => false,
        }
    }

    /// Moves the output out of the status slot, which is `Consumed` from then
    /// on. The slot must hold an output: it is read after the future has
    /// finished, and once.
    pub fn get_output(&mut self) -> (output: T)
        requires
            old(self)@.wf(),
            old(self)@.has_output(),
        ensures
            output == old(self)@.output(),
            final(self)@ == old(self)@.consumed(),
            final(self)@.wf(),
            !final(self)@.has_output(),
    {
        let mut taken = Status::Consumed;
        std::mem::swap(&mut self.status, &mut taken);
        match taken {
            Status::Finished(value) => value,
            _ => vstd::pervasive::unreached(),
        }
    }

    /// Puts `waker` into the join slot for the join handle's pending poll and
    /// sets the flag that says so. Returns the waker that it displaces.
    pub fn register_join_waker(&mut self, waker: Waker) -> (displaced: Option<Waker>)
        requires
            old(self)@.wf(),
            old(self)@.state.join_handle,
        ensures
            displaced == old(self)@.waker,
            final(self)@ == old(self)@.awaited(waker),
            final(self)@.wf(),
    {
        let displaced = self.header.replace_waker(waker);
        self.header.state.set_join_waker();
        displaced
    }

    /// The join handle goes away: the task no longer has one, and the handle's
    /// reference is given back. Returns the waker that the handle had
    /// registered, to be dropped, and whether the record is to be deallocated.
    /// The task itself goes on: it is detached, not cancelled.
    pub fn drop_join_handle(&mut self) -> (r: (Option<Waker>, bool))
        requires
            old(self)@.wf(),
            old(self)@.state.join_handle,
        ensures
            final(self)@ == old(self)@.detached(),
            final(self)@.wf(),
            r.0 == old(self)@.waker,
            r.1 == !final(self)@.live(),
    {
        self.header.state.unset_join_handle();
        self.header.state.unset_join_waker();
        self.header.state.ref_decr();
        let waker = self.header.take_waker();
        (waker, self.header.state.ref_count() == 0)
    }
}

/// Awaiting a task yields what its future returned: once a poll has returned
/// `output`, the status slot holds exactly `output`; reading it empties the
/// slot, so that the output is read once.
pub proof fn lemma_join_yields_output<F, T>(task: RawTaskView<F, T>, output: T)
    requires
        task.wf(),
        task.state.running,
    ensures
        task.completed(output).has_output(),
        task.completed(output).output() == output,
        !task.completed(output).consumed().has_output(),
{
}

/// Giving a reference back counts down by one and touches nothing else, and
/// the count reaches zero, which is when the record is deallocated, exactly
/// when it was one.
pub proof fn lemma_release_counts_down<F, T>(task: RawTaskView<F, T>)
    requires
        task.live(),
    ensures
        task.released().state.ref_count == task.state.ref_count - 1,
        task.released().state == (StateView {
            ref_count: task.released().state.ref_count,
            ..task.state
        }),
        task.released().status == task.status,
        task.released().waker == task.waker,
        !task.released().live() == (task.state.ref_count == 1),
{
}

/// However often a task is woken between two polls, it goes onto the
/// ready-queue at most once: after the first wake no further wake enqueues
/// it, and further wakes leave the record as it is.
pub proof fn lemma_wakes_coalesce<F, T>(task: RawTaskView<F, T>)
    ensures
        !task.woken().wake_enqueues(),
        task.woken().woken() == task.woken(),
{
}

/// The record and the ready-queue after `n` wakes of task `id`, each as
/// `wake_by_ref` does it: it marks the record, and it pushes the task onto
/// the queue where the record was not scheduled and not complete.
pub open spec fn woken_times<F, T>(
    task: RawTaskView<F, T>,
    queue: Seq<usize>,
    id: usize,
    n: nat,
) -> (RawTaskView<F, T>, Seq<usize>)
    decreases n,
{
    if n == 0 {
        (task, queue)
    } else {
        let before = woken_times(task, queue, id, (n - 1) as nat);
        (
            before.0.woken(),
            if before.0.wake_enqueues() {
                before.1.push(id)
            } else {
                before.1
            },
        )
    }
}

/// A task that is woken any number of times between two polls is on the
/// ready-queue once for all those wakes: the wakes together do what the
/// first of them does.
pub proof fn lemma_wakes_count_once<F, T>(
    task: RawTaskView<F, T>,
    queue: Seq<usize>,
    id: usize,
    n: nat,
)
    requires
        n >= 1,
    ensures
        woken_times(task, queue, id, n) == woken_times(task, queue, id, 1),
        woken_times(task, queue, id, 1).0 == task.woken(),
        woken_times(task, queue, id, 1).1 == if task.wake_enqueues() {
            queue.push(id)
        } else {
            queue
        },
    decreases n,
{
    reveal_with_fuel(woken_times, 2);
    if n > 1 {
        lemma_wakes_count_once(task, queue, id, (n - 1) as nat);
        lemma_wakes_coalesce(task);
    }
}

/// A wake of a complete task changes nothing.
pub proof fn lemma_wake_of_complete<F, T>(task: RawTaskView<F, T>)
    requires
        task.wf(),
        task.state.complete,
    ensures
        !task.wake_enqueues(),
        task.woken() == task,
{
}

/// A reference count reaches zero only when nobody is left to hold the
/// task: each way of giving a reference back leaves a consistent record, and
/// the record that is no longer live belongs to a complete task without a
/// join handle and without wakers. No operation applies to such a record, so
/// the count reaches zero once.
pub proof fn lemma_zero_means_unowned<F, T>(task: RawTaskView<F, T>, output: T)
    requires
        task.wf(),
        task.live(),
    ensures
        task.wakers() > 0 ==> task.released().wf() && (!task.released().live() ==> {
            &&& task.state.ref_count == 1
            &&& task.state.complete
            &&& !task.state.join_handle
        }),
        task.state.join_handle ==> task.detached().wf() && (!task.detached().live() ==> {
            &&& task.state.ref_count == 1
            &&& task.state.complete
            &&& task.wakers() == 0
        }),
        task.state.running ==> task.completed(output).wf() && (!task.completed(output).live() ==> {
            &&& task.state.ref_count == 1
            &&& !task.state.join_handle
            &&& task.wakers() == 0
        }),
{
}

/// The output of a detached task is not lost: when a task whose join handle
/// is gone completes and no waker holds it, its record is no longer live and
/// carries the output, so that the output goes when the record goes.
pub proof fn lemma_detached_output_goes_with_record<F, T>(task: RawTaskView<F, T>, output: T)
    requires
        task.wf(),
        task.state.running,
        !task.state.join_handle,
        task.wakers() == 0,
    ensures
        !task.completed(output).live(),
        task.completed(output).status == Status::<F, T>::Finished(output),
{
}

proof fn lemma_two_fit()
    ensures
        2 <= max_ref_count(),
{
    let m = usize::MAX;
    assert(m >= 0xffff_ffff ==> (m >> 5) >= 2) by (bit_vector);
}

} // verus!
