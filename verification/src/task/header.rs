//! The header of a task record: the state word and the slot for the waker
//! of whoever awaits the task's output.

use vstd::prelude::*;
use std::task::Waker;
use super::state::State;
use super::state::StateView;

verus! {

/// The header of a task record.
pub struct Header {
    pub state: State,
    /// The waker of the join handle's last pending poll.
    pub waker: Option<Waker>,
}

impl Header {
    /// The header of a task that was just spawned.
    pub fn new() -> (header: Header)
        ensures
            header.waker is None,
            header.state@ == (StateView {
                ref_count: 2,
                scheduled: true,
                running: false,
                complete: false,
                join_handle: true,
                join_waker: false,
            }),
    {
        Header { state: State::new(), waker: None }
    }

    /// Puts a clone of `waker` into the join slot, in place of what was there.
    pub fn register_waker(&mut self, waker: &Waker)
        ensures
            final(self).waker == Some(*waker),
            final(self).state == old(self).state,
    {
        self.waker = Some(waker.clone());
    }

    /// Puts `waker` into the join slot and hands back the waker that it
    /// displaces, so that the caller decides where that one is dropped.
    pub fn replace_waker(&mut self, waker: Waker) -> (displaced: Option<Waker>)
        ensures
            displaced == old(self).waker,
            final(self).waker == Some(waker),
            final(self).state == old(self).state,
    {
        let displaced = self.waker.take();
        self.waker = Some(waker);
        displaced
    }

    /// Takes the waker out of the join slot.
    pub fn take_waker(&mut self) -> (waker: Option<Waker>)
        ensures
            waker == old(self).waker,
            final(self).waker is None,
            final(self).state == old(self).state,
    {
        self.waker.take()
    }

    /// Wakes whoever awaits the task's output. The slot must hold a waker.
    pub fn wake_join_handle(&self)
        requires
            self.waker is Some,
    {
        match &self.waker {
            Some(waker) => waker.wake_by_ref(),
            None => {},
        }
    }
}

} // verus!
