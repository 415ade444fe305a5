//! The data channel endpoints.
//!
//! On the front, a data channel opens with one frame that names the
//! connection it is for; the endpoint claims the pending pipe of that
//! connection. On the back, a session dials the data channel, names its
//! connection, dials the origin and then splices the two.

use crate::frame::{inbound, Frame, FrameView};
use crate::id::{
    canonical_text, hex_digits, is_hyphen_position, lemma_canonical_text_shape, parsed_uuid,
    ConnectionId,
};
use crate::rendezvous::PendingRendezvous;
use crate::splice::Flow;
use crate::text::{is_white_space, lemma_trimmed_unchanged, trim, trimmed};
use vstd::prelude::*;

verus! {

/// What the first frame of a data channel says.
#[derive(Clone, Copy, Debug, PartialEq, Eq, Structural)]
pub enum Naming {
    /// A text frame that names this connection.
    Named(ConnectionId),
    /// A text frame that names no connection.
    Malformed,
    /// Not a text frame, or no frame at all.
    Unexpected,
}

/// The reading of the first frame of a data channel. White space around
/// the identifier is not minded.
pub open spec fn spec_first_frame(event: Option<FrameView>) -> Naming {
    match event {
        Some(FrameView::Text(text)) => match parsed_uuid(trimmed(text)) {
            Some(value) => Naming::Named(ConnectionId { value }),
            None => Naming::Malformed,
        },
        _ => Naming::Unexpected,
    }
}

/// The canonical text of an identifier neither begins nor ends with white
/// space.
pub proof fn lemma_canonical_text_trimmed(v: u128)
    ensures
        trimmed(canonical_text(v)) == canonical_text(v),
{
    let text = canonical_text(v);
    lemma_canonical_text_shape(v, 0);
    lemma_canonical_text_shape(v, 35);
    assert forall|c: char| hex_digits().contains(c) implies !is_white_space(c) by {
        let j = choose|j: int| 0 <= j < hex_digits().len() && hex_digits()[j] == c;
        assert(0 <= j < 16);
    }
    assert(!is_hyphen_position(0) && !is_hyphen_position(35));
    assert(text.last() == text[35]);
    lemma_trimmed_unchanged(text);
}

/// Reads the first frame of a data channel, or `None` if the channel ended
/// before any frame. The frame that the back sends for a connection is
/// always read as naming that connection.
pub fn first_frame(event: &Option<Frame>) -> (naming: Naming)
    ensures
        naming == spec_first_frame(inbound(*event)),
        forall|id: ConnectionId|
            inbound(*event) == Some(FrameView::Text(#[trigger] canonical_text(id@))) ==> naming
                == Naming::Named(id),
{
    match event {
        Some(Frame::Text(text)) => {
            assert forall|id: ConnectionId| text@ == #[trigger] canonical_text(id@) implies trimmed(
                text@,
            ) == canonical_text(id@) by {
                lemma_canonical_text_trimmed(id@);
            }
            match ConnectionId::parse(trim(text.as_str())) {
                Ok(id) => Naming::Named(id),
                Err(_) => Naming::Malformed,
            }
        },
        _ => Naming::Unexpected,
    }
}

/// What becomes of a data channel on the front after its first frame.
#[derive(Debug, PartialEq, Eq)]
pub enum Claim<P> {
    /// The connection was pending: splice the channel with this pipe.
    Paired(ConnectionId, P),
    /// No such connection is pending: close the channel.
    Unknown(ConnectionId),
    /// The first frame names no connection: close the channel.
    Malformed,
    /// The first frame is no text frame, or never came: close the channel.
    Unexpected,
}

/// The outcome of a claim on `pending` by a channel whose first frame read
/// as `naming`.
pub open spec fn spec_claim<P>(pending: Map<u128, P>, naming: Naming) -> Claim<P> {
    match naming {
        Naming::Named(id) => if pending.contains_key(id@) {
            Claim::Paired(id, pending[id@])
        } else {
            Claim::Unknown(id)
        },
        Naming::Malformed => Claim::Malformed,
        Naming::Unexpected => Claim::Unexpected,
    }
}

/// The identifiers pending after a channel whose first frame read as
/// `naming` has made its claim.
pub open spec fn pending_after_claim(pending: Set<u128>, naming: Naming) -> Set<u128> {
    match naming {
        Naming::Named(id) => pending.remove(id@),
        _ => pending,
    }
}

/// Handles the first frame of a data channel on the front: reads the
/// identifier and claims the pending connection of that name. Only a claim
/// that names a pending connection changes the registry, by removing that
/// one entry.
pub fn claim<P>(pending: &mut PendingRendezvous<P>, first: Option<Frame>) -> (claim: Claim<P>)
    ensures
        claim == spec_claim(old(pending)@, spec_first_frame(inbound(first))),
        final(pending)@.dom() == pending_after_claim(
            old(pending)@.dom(),
            spec_first_frame(inbound(first)),
        ),
        claim matches Claim::Paired(id, _) ==> final(pending)@ == old(pending)@.remove(id@),
        !(claim is Paired) ==> final(pending)@ == old(pending)@,
{
    match first_frame(&first) {
        Naming::Named(id) => {
            match pending.claim(id) {
                Some(pipe) => Claim::Paired(id, pipe),
                None => {
                    assert(final(pending)@ =~= old(pending)@);
                    assert(final(pending)@.dom() =~= old(pending)@.dom().remove(id@));
                    Claim::Unknown(id)
                },
            }
        },
        Naming::Malformed => Claim::Malformed,
        Naming::Unexpected => Claim::Unexpected,
    }
}

/// Where a session of the back stands.
#[derive(Clone, Copy, Debug, PartialEq, Eq, Structural)]
pub enum BackPhase {
    /// Nothing has been done yet.
    Idle,
    /// The data channel is being dialled.
    DialingTunnel,
    /// The frame that names the connection is being sent.
    Naming,
    /// The origin is being dialled.
    DialingOrigin,
    /// The flows run.
    Splicing,
    /// The session is over.
    Closed,
}

/// What happened to a session of the back.
#[derive(Clone, Copy, Debug, PartialEq, Eq, Structural)]
pub enum BackEvent {
    /// The command for the connection has arrived.
    Start,
    /// The dial of the data channel ended; `true` if it is open.
    TunnelDialed(bool),
    /// The send of the naming frame ended; `true` if it went out.
    Named(bool),
    /// The dial of the origin ended; `true` if it is connected.
    OriginDialed(bool),
    /// One of the flows has finished.
    FlowFinished(Flow),
}

/// What a session of the back does next.
#[derive(Clone, Copy, Debug, PartialEq, Eq, Structural)]
pub enum BackAction {
    /// Dial the data channel of the intermediary.
    DialTunnel,
    /// Send the frame that names the connection.
    SendName,
    /// Dial the origin.
    DialOrigin,
    /// Start the flows between the data channel and the origin.
    StartFlows,
    /// Give up: there is nothing to close.
    GiveUp,
    /// Give up and close the data channel, so that the front learns of it.
    CloseTunnel,
    /// Abort the flows that still run and drop both endpoints.
    CancelFlows,
    /// The event does not concern the session as it stands.
    Nothing,
}

/// The step of a session of the back: the phase it moves to and what it does.
pub open spec fn spec_back_step(phase: BackPhase, event: BackEvent) -> (BackPhase, BackAction) {
    match (phase, event) {
        (BackPhase::Idle, BackEvent::Start) => (BackPhase::DialingTunnel, BackAction::DialTunnel),
        (BackPhase::DialingTunnel, BackEvent::TunnelDialed(open)) => if open {
            (BackPhase::Naming, BackAction::SendName)
        } else {
            (BackPhase::Closed, BackAction::GiveUp)
        },
        (BackPhase::Naming, BackEvent::Named(sent)) => if sent {
            (BackPhase::DialingOrigin, BackAction::DialOrigin)
        } else {
            (BackPhase::Closed, BackAction::CloseTunnel)
        },
        (BackPhase::DialingOrigin, BackEvent::OriginDialed(connected)) => if connected {
            (BackPhase::Splicing, BackAction::StartFlows)
        } else {
            (BackPhase::Closed, BackAction::CloseTunnel)
        },
        (BackPhase::Splicing, BackEvent::FlowFinished(_)) => (
            BackPhase::Closed,
            BackAction::CancelFlows,
        ),
        _ => (phase, BackAction::Nothing),
    }
}

/// One session of the back: the work for one command of the front.
#[derive(Clone, Copy, Debug, PartialEq, Eq, Structural)]
pub struct BackSession {
    pub id: ConnectionId,
    pub phase: BackPhase,
}

impl BackSession {
    /// The session for the connection `id`, with nothing done yet.
    pub fn new(id: ConnectionId) -> (session: BackSession)
        ensures
            session == (BackSession { id, phase: BackPhase::Idle }),
    {
        BackSession { id, phase: BackPhase::Idle }
    }

    /// Whether the session is over.
    pub fn is_closed(&self) -> (b: bool)
        ensures
            b == (self.phase == BackPhase::Closed),
    {
        self.phase == BackPhase::Closed
    }

    /// The frame that names the connection of the session: the first frame
    /// on its data channel.
    pub fn name_frame(&self) -> (frame: Frame)
        ensures
            frame@ == FrameView::Text(canonical_text(self.id@)),
    {
        Frame::naming(self.id)
    }

    /// Takes one event and says what to do next.
    pub fn step(&mut self, event: BackEvent) -> (action: BackAction)
        ensures
            final(self).id == old(self).id,
            (final(self).phase, action) == spec_back_step(old(self).phase, event),
    {
        let (phase, action) = match (self.phase, event) {
            (BackPhase::Idle, BackEvent::Start) => (BackPhase::DialingTunnel, BackAction::DialTunnel),
            (BackPhase::DialingTunnel, BackEvent::TunnelDialed(open)) => if open {
                (BackPhase::Naming, BackAction::SendName)
            } else {
                (BackPhase::Closed, BackAction::GiveUp)
            },
            (BackPhase::Naming, BackEvent::Named(sent)) => if sent {
                (BackPhase::DialingOrigin, BackAction::DialOrigin)
            } else {
                (BackPhase::Closed, BackAction::CloseTunnel)
            },
            (BackPhase::DialingOrigin, BackEvent::OriginDialed(connected)) => if connected {
                (BackPhase::Splicing, BackAction::StartFlows)
            } else {
                (BackPhase::Closed, BackAction::CloseTunnel)
            },
            (BackPhase::Splicing, BackEvent::FlowFinished(_)) => (
                BackPhase::Closed,
                BackAction::CancelFlows,
            ),
            (phase, _) => (phase, BackAction::Nothing),
        };
        self.phase = phase;
        action
    }
}

/// The flows of a session of the back start only after the data channel was
/// dialled, the connection named and the origin dialled, each with success
/// and in that order.
pub proof fn law_back_splices_after_three_successes(
    first: BackEvent,
    second: BackEvent,
    third: BackEvent,
    fourth: BackEvent,
)
    ensures
        ({
            let a = spec_back_step(BackPhase::Idle, first);
            let b = spec_back_step(a.0, second);
            let c = spec_back_step(b.0, third);
            let d = spec_back_step(c.0, fourth);
            d.1 == BackAction::StartFlows <==> first == BackEvent::Start && second
                == BackEvent::TunnelDialed(true) && third == BackEvent::Named(true) && fourth
                == BackEvent::OriginDialed(true)
        }),
{
}

/// A closed session of the back stays closed and does nothing more; and
/// from the moment the data channel is open, every failure closes it.
pub proof fn law_back_closed_is_final(phase: BackPhase, event: BackEvent)
    ensures
        phase == BackPhase::Closed ==> spec_back_step(phase, event) == (
            BackPhase::Closed,
            BackAction::Nothing,
        ),
        spec_back_step(phase, event).1 == BackAction::GiveUp ==> phase == BackPhase::DialingTunnel,
        (phase == BackPhase::Naming && event == BackEvent::Named(false)) || (phase
            == BackPhase::DialingOrigin && event == BackEvent::OriginDialed(false))
            ==> spec_back_step(phase, event) == (BackPhase::Closed, BackAction::CloseTunnel),
{
}

} // verus!
