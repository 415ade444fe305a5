//! The TCP acceptor of the front: what becomes of a connection that has just
//! been accepted.
//!
//! The connection gets a fresh identifier and a pipe, and is made pending.
//! With a controller bound, the command that asks the back for a data
//! channel is dispatched and the connection waits for it. With none bound,
//! the pending entry is removed again and the connection is closed.

use crate::command::ControllerCommand;
use crate::controller::ControllerSlot;
use crate::id::ConnectionId;
use crate::rendezvous::PendingRendezvous;
use vstd::prelude::*;

verus! {

/// What the acceptor does with an accepted connection.
#[derive(Clone, Copy, Debug, PartialEq, Eq, Structural)]
pub enum Admission {
    /// Enqueue this command for the bound controller, waiting for room in
    /// its queue, then splice the connection once its data channel claims
    /// the pipe.
    Dispatch(ControllerCommand),
    /// No controller is bound: close the connection.
    Refused,
}

/// The decision on the connection `id`, given whether a controller is bound.
pub open spec fn spec_on_accept(bound: bool, id: ConnectionId) -> Admission {
    if bound {
        Admission::Dispatch(ControllerCommand::NewConnection(id))
    } else {
        Admission::Refused
    }
}

/// The identifiers pending after the connection `id` was accepted. It is
/// entered first, and removed again if no controller is bound.
pub open spec fn pending_after_accept(pending: Set<u128>, bound: bool, id: u128) -> Set<u128> {
    if bound {
        pending.insert(id)
    } else {
        pending.remove(id)
    }
}

/// Takes in the accepted connection `id` with its pipe: makes it pending,
/// takes a snapshot of the controller slot, and removes it again if no
/// controller is bound. A pipe that was pending under the same identifier
/// is displaced and dropped.
pub fn on_accept<H, P>(
    controller: &ControllerSlot<H>,
    pending: &mut PendingRendezvous<P>,
    id: ConnectionId,
    pipe: P,
) -> (admission: Admission)
    ensures
        admission == spec_on_accept(controller@ is Some, id),
        controller@ is Some ==> final(pending)@ == old(pending)@.insert(id@, pipe),
        controller@ is None ==> final(pending)@ == old(pending)@.remove(id@),
        controller@ is None && !old(pending)@.contains_key(id@) ==> final(pending)@ == old(pending)@,
        final(pending)@.dom() == pending_after_accept(
            old(pending)@.dom(),
            controller@ is Some,
            id@,
        ),
{
    let _displaced = pending.register(id, pipe);
    if controller.is_bound() {
        Admission::Dispatch(ControllerCommand::NewConnection(id))
    } else {
        pending.discard(id);
        assert(final(pending)@ =~= old(pending)@.remove(id@));
        assert(!old(pending)@.contains_key(id@) ==> old(pending)@.remove(id@) =~= old(pending)@);
        assert(final(pending)@.dom() =~= old(pending)@.dom().remove(id@));
        Admission::Refused
    }
}

} // verus!
