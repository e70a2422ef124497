//! The state word of a task: five lifecycle flags in the low bits and the
//! reference count in the bits above them.

use vstd::prelude::*;

verus! {

/// The task is present in the ready-queue.
pub const SCHEDULED: usize = 0b00001;

/// The task is being polled.
pub const RUNNING: usize = 0b00010;

/// The future has produced its output.
pub const COMPLETE: usize = 0b00100;

/// A join handle for the task still exists.
pub const JOIN_HANDLE: usize = 0b01000;

/// A waker is registered in the header's join slot.
pub const JOIN_WAKER: usize = 0b10000;

/// All five flags.
pub const STATE_MASK: usize = 0b11111;

/// How far the reference count is shifted to sit above the flags.
pub const REF_COUNT_SHIFT: usize = 5;

/// One reference, as it is added to the state word.
pub const REF_ONE: usize = 0b100000;

/// Two references (the executor's task and the join handle), scheduled, with
/// a join handle.
pub const INITIAL_STATE: usize = 0b1001001;

/// What a state word means.
pub struct StateView {
    /// How many owners the task has: its queue entry, wakers, the join handle.
    pub ref_count: nat,
    pub scheduled: bool,
    pub running: bool,
    pub complete: bool,
    pub join_handle: bool,
    pub join_waker: bool,
}

/// The largest reference count that a state word can hold.
pub open spec fn max_ref_count() -> nat {
    (usize::MAX >> 5) as nat
}

/// The largest reference count that a state word can hold.
pub fn max_refs() -> (max: usize)
    ensures
        max == max_ref_count(),
{
    usize::MAX >> REF_COUNT_SHIFT
}

/// Whether every bit of `mask` is set in `word`.
pub open spec fn has_flag(word: usize, mask: usize) -> bool {
    word & mask == mask
}

/// The meaning of a raw state word: the flags are its five low bits, the
/// reference count is what stands above them.
pub open spec fn decode(word: usize) -> StateView {
    StateView {
        ref_count: (word >> 5) as nat,
        scheduled: has_flag(word, SCHEDULED),
        running: has_flag(word, RUNNING),
        complete: has_flag(word, COMPLETE),
        join_handle: has_flag(word, JOIN_HANDLE),
        join_waker: has_flag(word, JOIN_WAKER),
    }
}

/// The state word of a task.
pub struct State {
    state: usize,
}

impl View for State {
    type V = StateView;

    closed spec fn view(&self) -> StateView {
        decode(self.state)
    }
}

impl State {
    /// The raw word, flags and reference count together.
    pub closed spec fn word(&self) -> usize {
        self.state
    }

    /// The state of a task that was just spawned: two references (the
    /// executor's task and the join handle), scheduled, with a join handle.
    pub fn new() -> (state: State)
        ensures
            state@ == (StateView {
                ref_count: 2,
                scheduled: true,
                running: false,
                complete: false,
                join_handle: true,
                join_waker: false,
            }),
            state.word() == INITIAL_STATE,
    {
        proof {
            lemma_initial();
        }
        State { state: INITIAL_STATE }
    }

    /// Rebuilds a state from a raw word.
    pub fn from_bits(word: usize) -> (state: State)
        ensures
            state.word() == word,
            state@ == decode(word),
    {
        State { state: word }
    }

    /// The raw word.
    pub fn bits(&self) -> (word: usize)
        ensures
            word == self.word(),
            decode(word) == self@,
    {
        self.state
    }

    /// Adds one reference.
    pub fn ref_incr(&mut self)
        requires
            old(self)@.ref_count < max_ref_count(),
        ensures
            final(self)@ == (StateView { ref_count: old(self)@.ref_count + 1, ..old(self)@ }),
    {
        proof {
            lemma_word_limit();
            lemma_shift_is_division(self.state);
        }
        let word: usize = self.state + REF_ONE;
        proof {
            lemma_add_ref(self.state, word);
        }
        self.state = word;
    }

    /// Gives one reference back.
    pub fn ref_decr(&mut self)
        requires
            old(self)@.ref_count > 0,
        ensures
            final(self)@ == (StateView {
                ref_count: (old(self)@.ref_count - 1) as nat,
                ..old(self)@
            }),
    {
        proof {
            lemma_shift_is_division(self.state);
        }
        let word: usize = self.state - REF_ONE;
        proof {
            lemma_add_ref(word, self.state);
        }
        self.state = word;
    }

    /// The number of references.
    pub fn ref_count(&self) -> (count: usize)
        ensures
            count == self@.ref_count,
    {
        self.state >> REF_COUNT_SHIFT
    }

    /// Records that the join handle is gone.
    pub fn unset_join_handle(&mut self)
        ensures
            final(self)@ == (StateView { join_handle: false, ..old(self)@ }),
    {
        proof {
            lemma_clear_flag(self.state, JOIN_HANDLE);
        }
        self.state = self.state & !JOIN_HANDLE;
    }

    /// Records that a waker stands in the header's join slot.
    pub fn set_join_waker(&mut self)
        ensures
            final(self)@ == (StateView { join_waker: true, ..old(self)@ }),
    {
        proof {
            lemma_set_flag(self.state, JOIN_WAKER);
        }
        self.state = self.state | JOIN_WAKER;
    }

    /// Records that the header's join slot is empty again.
    pub fn unset_join_waker(&mut self)
        ensures
            final(self)@ == (StateView { join_waker: false, ..old(self)@ }),
    {
        proof {
            lemma_clear_flag(self.state, JOIN_WAKER);
        }
        self.state = self.state & !JOIN_WAKER;
    }

    /// Whether a waker stands in the header's join slot.
    pub fn has_join_waker(&self) -> (b: bool)
        ensures
            b == self@.join_waker,
    {
        self.state & JOIN_WAKER == JOIN_WAKER
    }

    /// Whether a join handle still exists.
    pub fn has_join_handle(&self) -> (b: bool)
        ensures
            b == self@.join_handle,
    {
        self.state & JOIN_HANDLE == JOIN_HANDLE
    }

    /// Whether the future has produced its output.
    pub fn is_complete(&self) -> (b: bool)
        ensures
            b == self@.complete,
    {
        self.state & COMPLETE == COMPLETE
    }

    pub fn set_complete(&mut self)
        ensures
            final(self)@ == (StateView { complete: true, ..old(self)@ }),
    {
        proof {
            lemma_set_flag(self.state, COMPLETE);
        }
        self.state = self.state | COMPLETE;
    }

    /// Whether the task is in the ready-queue.
    pub fn is_scheduled(&self) -> (b: bool)
        ensures
            b == self@.scheduled,
    {
        self.state & SCHEDULED == SCHEDULED
    }

    pub fn set_scheduled(&mut self)
        ensures
            final(self)@ == (StateView { scheduled: true, ..old(self)@ }),
    {
        proof {
            lemma_set_flag(self.state, SCHEDULED);
        }
        self.state = self.state | SCHEDULED;
    }

    pub fn unset_scheduled(&mut self)
        ensures
            final(self)@ == (StateView { scheduled: false, ..old(self)@ }),
    {
        proof {
            lemma_clear_flag(self.state, SCHEDULED);
        }
        self.state = self.state & !SCHEDULED;
    }

    /// Whether the task is being polled.
    pub fn is_running(&self) -> (b: bool)
        ensures
            b == self@.running,
    {
        self.state & RUNNING == RUNNING
    }

    pub fn set_running(&mut self)
        ensures
            final(self)@ == (StateView { running: true, ..old(self)@ }),
    {
        proof {
            lemma_set_flag(self.state, RUNNING);
        }
        self.state = self.state | RUNNING;
    }

    pub fn unset_running(&mut self)
        ensures
            final(self)@ == (StateView { running: false, ..old(self)@ }),
    {
        proof {
            lemma_clear_flag(self.state, RUNNING);
        }
        self.state = self.state & !RUNNING;
    }

    /// The poll returned the output: the task is complete and no longer
    /// running.
    pub fn transition_to_complete(&mut self)
        ensures
            final(self)@ == (StateView { complete: true, running: false, ..old(self)@ }),
    {
        self.set_complete();
        self.unset_running();
    }

    /// The executor took the task off the queue to poll it.
    pub fn transition_to_running(&mut self)
        ensures
            final(self)@ == (StateView { running: true, scheduled: false, ..old(self)@ }),
    {
        self.set_running();
        self.unset_scheduled();
    }

    /// The poll returned pending: the task is no longer running. Whether it
    /// is scheduled stays as it is, so that a wake that came during the poll
    /// is not forgotten; without such a wake the task is idle and waits to be
    /// woken.
    pub fn transition_to_idle(&mut self)
        ensures
            final(self)@ == (StateView { running: false, ..old(self)@ }),
    {
        self.unset_running();
    }

    /// The task goes (back) onto the queue.
    pub fn transition_to_scheduled(&mut self)
        ensures
            final(self)@ == (StateView { scheduled: true, running: false, ..old(self)@ }),
    {
        self.set_scheduled();
        self.unset_running();
    }
}

/// The constants fit together: the mask is the five flags, one reference is
/// the lowest bit above them, and the initial word is two references with
/// the flags of a task that is scheduled and has a join handle.
pub proof fn lemma_state_constants()
    ensures
        STATE_MASK == SCHEDULED | RUNNING | COMPLETE | JOIN_HANDLE | JOIN_WAKER,
        REF_ONE == 1usize << REF_COUNT_SHIFT,
        REF_ONE == STATE_MASK + 1,
        INITIAL_STATE == ((REF_ONE * 2) as usize) | SCHEDULED | JOIN_HANDLE,
{
    assert(0b11111usize == 0b00001usize | 0b00010usize | 0b00100usize | 0b01000usize | 0b10000usize)
        by (bit_vector);
    assert(0b100000usize == 1usize << 5usize) by (bit_vector);
    assert(0b1001001usize == 64usize | 0b00001usize | 0b01000usize) by (bit_vector);
}

/// A state word counts at least `2^27 - 1` references, whatever the width
/// of the machine word.
pub proof fn lemma_max_ref_count()
    ensures
        max_ref_count() >= 0x07ff_ffff,
{
    let m = usize::MAX;
    assert(m >= 0xffff_ffff ==> (m >> 5) >= 0x07ff_ffff) by (bit_vector);
}

proof fn lemma_initial()
    ensures
        decode(INITIAL_STATE) == (StateView {
            ref_count: 2,
            scheduled: true,
            running: false,
            complete: false,
            join_handle: true,
            join_waker: false,
        }),
{
    assert(0b1001001usize >> 5 == 2) by (bit_vector);
    assert(0b1001001usize & 0b00001 == 0b00001) by (bit_vector);
    assert(0b1001001usize & 0b00010 != 0b00010) by (bit_vector);
    assert(0b1001001usize & 0b00100 != 0b00100) by (bit_vector);
    assert(0b1001001usize & 0b01000 == 0b01000) by (bit_vector);
    assert(0b1001001usize & 0b10000 != 0b10000) by (bit_vector);
}

proof fn lemma_word_limit()
    ensures
        usize::MAX % 32 == 31,
        usize::MAX >> 5 == usize::MAX / 32,
{
    let m = usize::MAX;
    assert(m >> 5 == m / 32) by (bit_vector);
    assert(usize::MAX == 0xffff_ffff || usize::MAX == 0xffff_ffff_ffff_ffff);
}

proof fn lemma_shift_is_division(w: usize)
    by (bit_vector)
    ensures
        w >> 5 == w / 32,
{
}

/// Adding one reference moves the count by one and leaves the flags.
proof fn lemma_add_ref(w: usize, v: usize)
    by (bit_vector)
    requires
        v == w + 0b100000,
    ensures
        v >> 5 == (w >> 5) + 1,
        v & 0b00001 == w & 0b00001,
        v & 0b00010 == w & 0b00010,
        v & 0b00100 == w & 0b00100,
        v & 0b01000 == w & 0b01000,
        v & 0b10000 == w & 0b10000,
{
}

/// Setting one flag leaves the count and the other flags.
proof fn lemma_set_flag(w: usize, m: usize)
    by (bit_vector)
    requires
        m == 0b00001 || m == 0b00010 || m == 0b00100 || m == 0b01000 || m == 0b10000,
    ensures
        (w | m) >> 5 == w >> 5,
        (w | m) & m == m,
        m != 0b00001 ==> (w | m) & 0b00001 == w & 0b00001,
        m != 0b00010 ==> (w | m) & 0b00010 == w & 0b00010,
        m != 0b00100 ==> (w | m) & 0b00100 == w & 0b00100,
        m != 0b01000 ==> (w | m) & 0b01000 == w & 0b01000,
        m != 0b10000 ==> (w | m) & 0b10000 == w & 0b10000,
{
}

/// Clearing one flag leaves the count and the other flags.
proof fn lemma_clear_flag(w: usize, m: usize)
    by (bit_vector)
    requires
        m == 0b00001 || m == 0b00010 || m == 0b00100 || m == 0b01000 || m == 0b10000,
    ensures
        (w & !m) >> 5 == w >> 5,
        (w & !m) & m != m,
        m != 0b00001 ==> (w & !m) & 0b00001 == w & 0b00001,
        m != 0b00010 ==> (w & !m) & 0b00010 == w & 0b00010,
        m != 0b00100 ==> (w & !m) & 0b00100 == w & 0b00100,
        m != 0b01000 ==> (w & !m) & 0b01000 == w & 0b01000,
        m != 0b10000 ==> (w & !m) & 0b10000 == w & 0b10000,
{
}

} // verus!
