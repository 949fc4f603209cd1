//! The single-slot cell through which the main flow hands the UART handle to
//! the interrupt handler.
//!
//! The slot starts empty and offers no operation that empties it: once a
//! handle has been published, every later state holds one. Every change goes
//! through `&mut`, so whoever works on the slot holds it exclusively for the
//! whole of that access. On the target that exclusive access is what a
//! critical section grants.

use vstd::prelude::*;

verus! {

/// An optional handle shared between the main flow and the interrupt handler.
pub struct SharedSlot<T> {
    handle: Option<T>,
}

impl<T> View for SharedSlot<T> {
    type V = Option<T>;

    closed spec fn view(&self) -> Option<T> {
        self.handle
    }
}

impl<T> SharedSlot<T> {
    /// The empty slot, as it is at program start.
    pub fn new() -> (slot: SharedSlot<T>)
        ensures
            slot@ is None,
    {
        SharedSlot { handle: None }
    }

    /// Whether a handle has been published.
    pub fn is_populated(&self) -> (populated: bool)
        ensures
            populated == (self@ is Some),
    {
        self.handle.is_some()
    }

    /// Moves `handle` into the slot and hands back what the slot held before.
    pub fn publish(&mut self, handle: T) -> (previous: Option<T>)
        ensures
            final(self)@ == Some(handle),
            previous == old(self)@,
    {
        let previous = self.handle.take();
        self.handle = Some(handle);
        previous
    }

    /// Read access to the handle, if one has been published.
    pub fn handle(&self) -> (handle: Option<&T>)
        ensures
            match handle {
                Some(h) => self@ == Some(*h),
                None => self@ is None,
            },
    {
        self.handle.as_ref()
    }

    /// Exclusive access to the handle, if one has been published. Whatever
    /// the caller does through the reference, the slot stays populated.
    pub fn handle_mut(&mut self) -> (handle: Option<&mut T>)
        ensures
            match handle {
                Some(h) => old(self)@ == Some(*h) && final(self)@ == Some(*final(h)),
                None => old(self)@ is None && final(self)@ is None,
            },
    {
        self.handle.as_mut()
    }
}

} // verus!
