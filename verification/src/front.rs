//! The front as a whole: its pending rendezvous and its controller slot,
//! followed through every event that can change them.
//!
//! The model keeps, beside the state, a tally of what has happened. What is
//! proved here holds after any sequence of events, in any order.

use crate::acceptor::{on_accept, pending_after_accept, spec_on_accept, Admission};
use crate::bridge::{spec_bridge_step, Bridge, BridgeAction, BridgeEvent, BridgePhase};
use crate::controller::ControllerSlot;
use crate::endpoint::{claim, pending_after_claim, spec_claim, spec_first_frame, Claim, Naming};
use crate::frame::{inbound, Frame};
use crate::id::ConnectionId;
use crate::rendezvous::PendingRendezvous;
use vstd::prelude::*;

verus! {

/// An event that changes the state of the front.
pub enum FrontEvent {
    /// A TCP connection was accepted and given this identifier.
    Accepted(ConnectionId),
    /// The command for this connection could not be handed to the
    /// controller: its pending entry is removed.
    DispatchFailed(ConnectionId),
    /// A data channel arrived; this is the reading of its first frame.
    Connected(Naming),
    /// A controller asked to be bound.
    UpgradeRequested,
    /// The session of the bound controller ended.
    ControllerGone,
}

/// The state of the front with its tally.
pub struct FrontModel {
    /// The identifiers of the pending connections.
    pub pending: Set<u128>,
    /// Whether a controller is bound.
    pub bound: bool,
    /// How many TCP connections were accepted.
    pub accepted: nat,
    /// How many of them were paired with a data channel.
    pub paired: nat,
    /// How many of them were given up: refused for want of a controller,
    /// displaced by a later connection of the same identifier, or dropped
    /// because their command could not be dispatched.
    pub aborted: nat,
    /// How many controllers were bound.
    pub bindings: nat,
    /// How many upgrades were answered with a conflict.
    pub conflicts: nat,
    /// How many bound controllers left.
    pub releases: nat,
}

/// The front at start: nothing pending, no controller.
pub open spec fn initial() -> FrontModel {
    FrontModel {
        pending: Set::empty(),
        bound: false,
        accepted: 0,
        paired: 0,
        aborted: 0,
        bindings: 0,
        conflicts: 0,
        releases: 0,
    }
}

/// 1 if the condition holds, else 0.
pub open spec fn count(condition: bool) -> nat {
    if condition {
        1
    } else {
        0
    }
}

/// The front after one event.
pub open spec fn step(front: FrontModel, event: FrontEvent) -> FrontModel {
    match event {
        FrontEvent::Accepted(id) => FrontModel {
            pending: pending_after_accept(front.pending, front.bound, id@),
            accepted: front.accepted + 1,
            aborted: front.aborted + count(front.pending.contains(id@)) + count(!front.bound),
            ..front
        },
        FrontEvent::DispatchFailed(id) => FrontModel {
            pending: front.pending.remove(id@),
            aborted: front.aborted + count(front.pending.contains(id@)),
            ..front
        },
        FrontEvent::Connected(naming) => FrontModel {
            pending: pending_after_claim(front.pending, naming),
            paired: front.paired + count(
                naming matches Naming::Named(id) && front.pending.contains(id@),
            ),
            ..front
        },
        FrontEvent::UpgradeRequested => FrontModel {
            bound: true,
            bindings: front.bindings + count(!front.bound),
            conflicts: front.conflicts + count(front.bound),
            ..front
        },
        FrontEvent::ControllerGone => FrontModel {
            bound: false,
            releases: front.releases + count(front.bound),
            ..front
        },
    }
}

/// The front after a sequence of events, from the start.
pub open spec fn run(events: Seq<FrontEvent>) -> FrontModel
    decreases events.len(),
{
    if events.len() == 0 {
        initial()
    } else {
        step(run(events.drop_last()), events.last())
    }
}

/// At all times the number of pending entries is the number of TCP
/// connections accepted and neither paired nor given up.
pub proof fn law_pending_count(events: Seq<FrontEvent>)
    ensures
        run(events).pending.finite(),
        run(events).pending.len() == run(events).accepted - run(events).paired - run(
            events,
        ).aborted,
    decreases events.len(),
{
    if events.len() > 0 {
        law_pending_count(events.drop_last());
        let before = run(events.drop_last());
        match events.last() {
            FrontEvent::Accepted(id) => {
                if before.bound {
                    assert(run(events).pending == before.pending.insert(id@));
                } else {
                    assert(run(events).pending == before.pending.remove(id@));
                }
            },
            FrontEvent::DispatchFailed(id) => {
                assert(run(events).pending == before.pending.remove(id@));
            },
            FrontEvent::Connected(naming) => {
                match naming {
                    Naming::Named(id) => {
                        assert(run(events).pending == before.pending.remove(id@));
                    },
                    _ => {},
                }
            },
            _ => {},
        }
    }
}

/// At all times at most one controller is bound: the controllers bound and
/// not yet gone number one if the slot is bound, and none otherwise.
pub proof fn law_single_controller(events: Seq<FrontEvent>)
    ensures
        run(events).bindings - run(events).releases == count(run(events).bound),
        run(events).bindings - run(events).releases <= 1,
    decreases events.len(),
{
    if events.len() > 0 {
        law_single_controller(events.drop_last());
    }
}

/// An accepted connection whose identifier is not pending yet, as a fresh
/// one is, changes the front by exactly itself: with a controller bound it
/// adds one pending entry and nothing is given up; with none bound the
/// pending entries stay as they were and the connection is given up.
pub proof fn law_fresh_accept(front: FrontModel, id: ConnectionId)
    requires
        front.pending.finite(),
        !front.pending.contains(id@),
    ensures
        front.bound ==> step(front, FrontEvent::Accepted(id)) == (FrontModel {
            pending: front.pending.insert(id@),
            accepted: front.accepted + 1,
            ..front
        }) && step(front, FrontEvent::Accepted(id)).pending.len() == front.pending.len() + 1,
        !front.bound ==> step(front, FrontEvent::Accepted(id)) == (FrontModel {
            accepted: front.accepted + 1,
            aborted: front.aborted + 1,
            ..front
        }),
{
    if !front.bound {
        assert(front.pending.remove(id@) =~= front.pending);
    }
}

/// An upgrade that meets a bound controller is answered with a conflict and
/// leaves the front as it was, tally apart: the bound controller stays
/// bound, and nothing pending is touched.
pub proof fn law_conflict_disturbs_nothing(front: FrontModel)
    requires
        front.bound,
    ensures
        step(front, FrontEvent::UpgradeRequested) == (FrontModel {
            conflicts: front.conflicts + 1,
            ..front
        }),
{
}

/// A data channel that names no pending connection changes nothing on the
/// front.
pub proof fn law_stray_claim_disturbs_nothing(front: FrontModel, naming: Naming)
    requires
        !(naming matches Naming::Named(id) && front.pending.contains(id@)),
    ensures
        step(front, FrontEvent::Connected(naming)) == front,
{
    match naming {
        Naming::Named(id) => {
            assert(front.pending.remove(id@) =~= front.pending);
        },
        _ => {},
    }
}

/// A pending connection is paired at most once: the claim that pairs it
/// removes it, and a second claim under the same name finds nothing.
pub proof fn law_claim_is_exclusive(front: FrontModel, id: ConnectionId)
    ensures
        !step(front, FrontEvent::Connected(Naming::Named(id))).pending.contains(id@),
        ({
            let once = step(front, FrontEvent::Connected(Naming::Named(id)));
            let twice = step(once, FrontEvent::Connected(Naming::Named(id)));
            twice == once
        }),
{
    let once = step(front, FrontEvent::Connected(Naming::Named(id)));
    assert(once.pending.remove(id@) =~= once.pending);
}

/// The front after one more event is the step from where it stood.
pub proof fn lemma_run_push(events: Seq<FrontEvent>, event: FrontEvent)
    ensures
        run(events.push(event)) == step(run(events), event),
{
    assert(events.push(event).drop_last() =~= events);
    assert(events.push(event).last() == event);
}

/// The shared state of the front: the controller slot for handles `H` and
/// the pending rendezvous of pipes `P`, together with the history of what
/// happened to them.
///
/// Every method is one event. The state is at all times what the model
/// makes of the history, so that what is proved of the model holds of the
/// state.
pub struct Front<H, P> {
    controller: ControllerSlot<H>,
    pending: PendingRendezvous<P>,
    history: Ghost<Seq<FrontEvent>>,
}

impl<H, P> Front<H, P> {
    /// The events so far, oldest first.
    pub closed spec fn history(&self) -> Seq<FrontEvent> {
        self.history@
    }

    /// The pending pipes by the value of their connection's identifier.
    pub closed spec fn pending(&self) -> Map<u128, P> {
        self.pending@
    }

    /// The handle of the bound controller, if one is bound.
    pub closed spec fn controller(&self) -> Option<H> {
        self.controller@
    }

    /// The invariant of the front: its state is what the model makes of its
    /// history.
    pub closed spec fn wf(&self) -> bool {
        &&& self.pending@.dom() == run(self.history@).pending
        &&& (self.controller@ is Some) == run(self.history@).bound
    }

    #[verifier::type_invariant]
    spec fn inv(self) -> bool {
        self.wf()
    }

    /// Takes the state out whole and leaves the front at start in its
    /// place, so that the invariant holds at every point while an event is
    /// worked in.
    fn take(&mut self) -> (taken: Self)
        ensures
            taken == *old(self),
            taken.wf(),
    {
        proof {
            use_type_invariant(&*self);
        }
        let mut taken = Front::new();
        std::mem::swap(self, &mut taken);
        taken
    }

    /// The front at start.
    pub fn new() -> (front: Self)
        ensures
            front.wf(),
            front.history() == Seq::<FrontEvent>::empty(),
            front.pending() == Map::<u128, P>::empty(),
            front.controller() is None,
    {
        let front = Front {
            controller: ControllerSlot::new(),
            pending: PendingRendezvous::new(),
            history: Ghost(Seq::empty()),
        };
        assert(front.pending@.dom() =~= Set::<u128>::empty());
        front
    }

    /// Whether a controller is bound. At most one is: the controllers bound
    /// and not yet gone number one if this is `true`, and none otherwise.
    pub fn is_bound(&self) -> (b: bool)
        ensures
            b == (self.controller() is Some),
            b == run(self.history()).bound,
            run(self.history()).bindings - run(self.history()).releases == count(b),
    {
        proof {
            use_type_invariant(self);
            law_single_controller(self.history@);
        }
        self.controller.is_bound()
    }

    /// The handle of the bound controller, if one is bound.
    pub fn handle(&self) -> (handle: Option<&H>)
        ensures
            handle is Some <==> self.controller() is Some,
            handle matches Some(h) ==> self.controller() == Some(*h),
    {
        self.controller.handle()
    }

    /// The number of pending connections: the connections accepted and
    /// neither paired nor given up.
    pub fn pending_count(&self) -> (n: usize)
        ensures
            n == self.pending().len(),
            n == run(self.history()).accepted - run(self.history()).paired - run(
                self.history(),
            ).aborted,
    {
        proof {
            use_type_invariant(self);
            law_pending_count(self.history@);
        }
        self.pending.len()
    }

    /// Whether a connection with this identifier is pending.
    pub fn is_pending(&self, id: ConnectionId) -> (b: bool)
        ensures
            b == self.pending().contains_key(id@),
    {
        self.pending.contains(id)
    }

    /// A controller asks to be bound with its handle. If none is bound it
    /// is bound, and its bridge is returned, about to send the
    /// acknowledgement. While one is bound the front stays as it is,
    /// history apart, and the handle comes back: the upgrade is to be
    /// answered with a conflict.
    pub fn upgrade(&mut self, handle: H) -> (r: Result<Bridge, H>)
        ensures
            final(self).wf(),
            final(self).history() == old(self).history().push(FrontEvent::UpgradeRequested),
            final(self).pending() == old(self).pending(),
            old(self).controller() is None ==> r == Ok::<Bridge, H>(
                Bridge { phase: BridgePhase::Greeting },
            ) && final(self).controller() == Some(handle),
            old(self).controller() is Some ==> r == Err::<Bridge, H>(handle) && final(self).controller() == old(self).controller(),
    {
        let Front { mut controller, pending, history } = self.take();
        let bound = controller.bind(handle);
        proof {
            lemma_run_push(history@, FrontEvent::UpgradeRequested);
        }
        *self = Front {
            controller,
            pending,
            history: Ghost(history@.push(FrontEvent::UpgradeRequested)),
        };
        match bound {
            Ok(()) => Ok(Bridge::new()),
            Err(handle) => Err(handle),
        }
    }

    /// One event of the bridge of the bound controller. The bridge takes
    /// its step; if that step terminates it, the slot is cleared in the
    /// same breath, so that a fresh controller may bind. Otherwise the
    /// front stays as it is.
    pub fn bridge_event(&mut self, bridge: &mut Bridge, event: BridgeEvent) -> (action:
        BridgeAction)
        ensures
            final(self).wf(),
            (final(bridge).phase, action) == spec_bridge_step(old(bridge).phase, event),
            final(self).pending() == old(self).pending(),
            action == BridgeAction::Terminate ==> final(self).controller() is None && final(self).history() == old(self).history().push(FrontEvent::ControllerGone),
            action != BridgeAction::Terminate ==> final(self).controller() == old(self).controller() && final(self).history() == old(self).history(),
    {
        proof {
            use_type_invariant(&*self);
        }
        let action = bridge.step(event);
        if action == BridgeAction::Terminate {
            let _handle = self.controller_gone();
        }
        action
    }

    /// The session of the bound controller has ended: the slot is cleared
    /// and the handle that was bound is returned.
    pub fn controller_gone(&mut self) -> (handle: Option<H>)
        ensures
            final(self).wf(),
            final(self).history() == old(self).history().push(FrontEvent::ControllerGone),
            final(self).pending() == old(self).pending(),
            final(self).controller() is None,
            handle == old(self).controller(),
    {
        let Front { mut controller, pending, history } = self.take();
        let handle = controller.release();
        proof {
            lemma_run_push(history@, FrontEvent::ControllerGone);
        }
        *self = Front {
            controller,
            pending,
            history: Ghost(history@.push(FrontEvent::ControllerGone)),
        };
        handle
    }

    /// A TCP connection was accepted and given the identifier `id` and a
    /// pipe. With a controller bound it becomes pending and its command is
    /// to be dispatched; with none bound it is refused.
    pub fn accept(&mut self, id: ConnectionId, pipe: P) -> (admission: Admission)
        ensures
            final(self).wf(),
            final(self).history() == old(self).history().push(FrontEvent::Accepted(id)),
            final(self).controller() == old(self).controller(),
            admission == spec_on_accept(old(self).controller() is Some, id),
            old(self).controller() is Some ==> final(self).pending() == old(self).pending().insert(
                id@,
                pipe,
            ),
            old(self).controller() is None ==> final(self).pending() == old(self).pending().remove(
                id@,
            ),
            old(self).controller() is None && !old(self).pending().contains_key(id@) ==> final(self).pending() == old(self).pending(),
    {
        let Front { controller, mut pending, history } = self.take();
        let admission = on_accept(&controller, &mut pending, id, pipe);
        proof {
            lemma_run_push(history@, FrontEvent::Accepted(id));
        }
        *self = Front { controller, pending, history: Ghost(history@.push(FrontEvent::Accepted(id))) };
        admission
    }

    /// The command for the connection `id` could not be handed to the
    /// controller: its pending entry is removed. Says whether there was one.
    pub fn dispatch_failed(&mut self, id: ConnectionId) -> (was_pending: bool)
        ensures
            final(self).wf(),
            final(self).history() == old(self).history().push(FrontEvent::DispatchFailed(id)),
            final(self).controller() == old(self).controller(),
            final(self).pending() == old(self).pending().remove(id@),
            was_pending == old(self).pending().contains_key(id@),
    {
        let Front { controller, mut pending, history } = self.take();
        let was_pending = pending.discard(id);
        proof {
            lemma_run_push(history@, FrontEvent::DispatchFailed(id));
            assert(pending@.dom() =~= old(self).pending@.dom().remove(id@));
        }
        *self = Front {
            controller,
            pending,
            history: Ghost(history@.push(FrontEvent::DispatchFailed(id))),
        };
        was_pending
    }

    /// A data channel arrived with this first frame, or with none. If the
    /// frame names a pending connection, that connection is paired with the
    /// channel and its pipe handed over; otherwise nothing changes but the
    /// history.
    pub fn connect(&mut self, first: Option<Frame>) -> (claimed: Claim<P>)
        ensures
            final(self).wf(),
            final(self).history() == old(self).history().push(
                FrontEvent::Connected(spec_first_frame(inbound(first))),
            ),
            final(self).controller() == old(self).controller(),
            claimed == spec_claim(old(self).pending(), spec_first_frame(inbound(first))),
            claimed matches Claim::Paired(id, _) ==> final(self).pending() == old(self).pending().remove(id@),
            !(claimed is Paired) ==> final(self).pending() == old(self).pending(),
    {
        let ghost event = FrontEvent::Connected(spec_first_frame(inbound(first)));
        let Front { controller, mut pending, history } = self.take();
        let claimed = claim(&mut pending, first);
        proof {
            lemma_run_push(history@, event);
        }
        *self = Front { controller, pending, history: Ghost(history@.push(event)) };
        claimed
    }
}

/// What holds of the model holds of the front itself, at all times: its
/// pending entries are the connections accepted and neither paired nor
/// given up, and at most one controller is bound.
pub proof fn law_front_follows_its_history<H, P>(front: Front<H, P>)
    requires
        front.wf(),
    ensures
        front.pending().dom() == run(front.history()).pending,
        front.pending().dom().finite(),
        front.pending().len() == run(front.history()).accepted - run(front.history()).paired
            - run(front.history()).aborted,
        (front.controller() is Some) == run(front.history()).bound,
        run(front.history()).bindings - run(front.history()).releases == count(
            front.controller() is Some,
        ),
{
    law_pending_count(front.history());
    law_single_controller(front.history());
}

} // verus!
