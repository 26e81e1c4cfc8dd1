use vstd::prelude::*;

verus! {

/// Holds the handle of the window thread until it is taken to be joined,
/// so that the thread is joined at most once.
pub struct ThreadSlot<H> {
    /// The handle; `None` once taken.
    pub handle: Option<H>,
}

impl<H> ThreadSlot<H> {
    /// What a shutdown takes from the slot: the handle, if still there.
    pub open spec fn taken(self) -> Option<H> {
        self.handle
    }

    /// The slot after a shutdown: always empty.
    pub open spec fn after_take(self) -> ThreadSlot<H> {
        ThreadSlot { handle: None }
    }

    /// A slot holding the handle of a running thread.
    pub fn new(handle: H) -> (r: ThreadSlot<H>)
        ensures
            r.handle == Some(handle),
    {
        ThreadSlot { handle: Some(handle) }
    }

    /// Whether the thread has not been taken for joining yet.
    pub fn is_running(&self) -> (r: bool)
        ensures
            r == (self.handle is Some),
    {
        self.handle.is_some()
    }

    /// Takes the handle to join the thread; `None` if it was already taken.
    pub fn take_for_join(&mut self) -> (r: Option<H>)
        ensures
            r == old(self).taken(),
            *final(self) == old(self).after_take(),
    {
        self.handle.take()
    }
}

/// Shutting down twice: the second shutdown finds the slot empty, so it joins
/// nothing and has nothing that could fail.
pub proof fn lemma_second_shutdown_joins_nothing<H>(slot: ThreadSlot<H>)
    ensures
        slot.after_take().taken() is None,
        slot.after_take().after_take() == slot.after_take(),
{
}

} // verus!
