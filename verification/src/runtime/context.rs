//! The runtime context of a thread: the handles of the runtime that is
//! driving a top-level future on it, if one is.

use vstd::prelude::*;

verus! {

/// Handle to the runtime: the spawner, which puts tasks onto the executor,
/// and the handle to the I/O reactor.
pub struct Handle<S, R> {
    pub spawner: S,
    pub io: R,
}

/// What a thread's context cell holds: the handle of the active runtime.
pub struct Context<S, R> {
    current: Option<Handle<S, R>>,
}

/// Witness of one entry into a runtime context; it holds what the context
/// held before, which leaving the context puts back.
pub struct EnterGuard<S, R>(pub Option<Handle<S, R>>);

impl<S, R> View for Context<S, R> {
    type V = Option<Handle<S, R>>;

    closed spec fn view(&self) -> Option<Handle<S, R>> {
        self.current
    }
}

impl<S, R> Context<S, R> {
    /// The context of a thread on which no runtime is active.
    pub fn new() -> (context: Context<S, R>)
        ensures
            context@ is None,
    {
        Context { current: None }
    }

    /// Whether a runtime is active.
    pub fn is_active(&self) -> (b: bool)
        ensures
            b == (self@ is Some),
    {
        self.current.is_some()
    }

    /// Enters the context of a runtime: `new` is the active handle from now
    /// on. No runtime may be active yet: a runtime is not entered from within
    /// another.
    pub fn enter(&mut self, new: Handle<S, R>) -> (guard: EnterGuard<S, R>)
        requires
            old(self)@ is None,
        ensures
            final(self)@ == Some(new),
            guard.0 == old(self)@,
    {
        let previous = self.current.take();
        self.current = Some(new);
        EnterGuard(previous)
    }

    /// Leaves the context that `guard` witnesses: the context holds again what
    /// it held before the entry, which is nothing. Returns the handle that
    /// was active.
    pub fn exit(&mut self, guard: EnterGuard<S, R>) -> (left: Option<Handle<S, R>>)
        ensures
            final(self)@ == guard.0,
            left == old(self)@,
    {
        let left = self.current.take();
        self.current = guard.0;
        left
    }

    /// The active runtime's handle to the I/O reactor. A runtime must be
    /// active.
    pub fn io(&self) -> (io: &R)
        requires
            self@ is Some,
        ensures
            *io == self@->0.io,
    {
        match &self.current {
            Some(handle) => &handle.io,
            None => vstd::pervasive::unreached(),
        }
    }

    /// The active runtime's spawner. A runtime must be active.
    pub fn spawner(&self) -> (spawner: &S)
        requires
            self@ is Some,
        ensures
            *spawner == self@->0.spawner,
    {
        match &self.current {
            Some(handle) => &handle.spawner,
            None => vstd::pervasive::unreached(),
        }
    }
}

} // verus!
