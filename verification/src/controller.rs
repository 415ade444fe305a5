//! The controller slot of the front: the one place that holds the handle of
//! the bound controller, if any.
//!
//! ```text
//! UNBOUND --upgrade accepted--> BOUND --session ends--> UNBOUND
//! BOUND   --second upgrade----> rejected, the slot stays BOUND
//! ```

use vstd::prelude::*;

verus! {

/// How many commands the queue towards the controller holds.
pub const CONTROLLER_COMMANDER_CHAN_LENGTH: usize = 10;

/// The HTTP status that answers an upgrade while a controller is bound.
pub const HTTP_CONFLICT: u16 = 409;

/// The slot for the handle `H` of the bound controller.
pub struct ControllerSlot<H> {
    handle: Option<H>,
}

impl<H> View for ControllerSlot<H> {
    type V = Option<H>;

    /// The handle of the bound controller, if one is bound.
    closed spec fn view(&self) -> Option<H> {
        self.handle
    }
}

impl<H> ControllerSlot<H> {
    /// An unbound slot.
    pub fn new() -> (slot: Self)
        ensures
            slot@ is None,
    {
        ControllerSlot { handle: None }
    }

    /// Whether a controller is bound.
    pub fn is_bound(&self) -> (b: bool)
        ensures
            b == (self@ is Some),
    {
        self.handle.is_some()
    }

    /// The handle of the bound controller, if one is bound.
    pub fn handle(&self) -> (handle: Option<&H>)
        ensures
            handle is Some <==> self@ is Some,
            handle matches Some(h) ==> self@ == Some(*h),
    {
        self.handle.as_ref()
    }

    /// Binds a controller with its handle. While one is bound the slot
    /// stays as it is and the handle comes back: the upgrade is to be
    /// answered with [`HTTP_CONFLICT`].
    pub fn bind(&mut self, handle: H) -> (r: Result<(), H>)
        ensures
            old(self)@ is None ==> r is Ok && final(self)@ == Some(handle),
            old(self)@ is Some ==> r == Err::<(), H>(handle) && *final(self) == *old(self),
    {
        if self.handle.is_some() {
            Err(handle)
        } else {
            self.handle = Some(handle);
            Ok(())
        }
    }

    /// Clears the slot when the controller's session has ended, and returns
    /// the handle that was bound.
    pub fn release(&mut self) -> (handle: Option<H>)
        ensures
            final(self)@ is None,
            handle == old(self)@,
    {
        self.handle.take()
    }
}

} // verus!
