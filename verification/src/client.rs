//! The controller client: the back's side of the control channel.
//!
//! The client dials the control channel, expects the acknowledgement as the
//! first frame, and then reads commands. Whatever goes wrong at run time (a
//! dial that fails, a first frame that is not the acknowledgement, a channel
//! that is lost) ends the attempt and nothing more: the client drops the
//! channel, waits and dials again, for ever. Only an address that cannot be
//! used at all, found at the first dial, stops it.

use crate::command::{spec_decode, spec_encode, ControllerCommand, Reading};
use crate::frame::{ack_text, inbound, Frame, FrameView};
use crate::id::ConnectionId;
use vstd::prelude::*;

verus! {

/// How many seconds the client waits before it dials again.
pub const RECONNECT_DELAY_SECS: u64 = 5;

/// Where the client stands.
#[derive(Clone, Copy, Debug, PartialEq, Eq, Structural)]
pub enum ClientPhase {
    /// The control channel is being dialled for the first time.
    Starting,
    /// The control channel is being dialled again.
    Connecting,
    /// The channel is open and the acknowledgement has not come yet.
    AwaitingAck,
    /// Commands are read.
    Reading,
    /// The attempt has ended; the client waits before it dials again.
    Waiting,
    /// The address of the intermediary cannot be used: the client has
    /// stopped.
    Failed,
}

/// How a dial ended.
#[derive(Clone, Copy, Debug, PartialEq, Eq, Structural)]
pub enum Dial {
    /// The channel is open.
    Open,
    /// The intermediary was not reached, or refused the channel.
    Unreachable,
    /// The address of the intermediary is no address that can be dialled.
    BadAddress,
}

/// What happened to the client.
#[derive(Debug, PartialEq, Eq)]
pub enum ClientEvent {
    /// The dial ended.
    Dialed(Dial),
    /// A frame arrived, or `None` once the stream has ended or failed.
    Received(Option<Frame>),
    /// The wait before the next dial is over.
    DelayElapsed,
}

/// The mathematical content of a [`ClientEvent`].
pub enum ClientEventView {
    Dialed(Dial),
    Received(Option<FrameView>),
    DelayElapsed,
}

impl View for ClientEvent {
    type V = ClientEventView;

    open spec fn view(&self) -> ClientEventView {
        match self {
            ClientEvent::Dialed(dial) => ClientEventView::Dialed(*dial),
            ClientEvent::Received(event) => ClientEventView::Received(inbound(*event)),
            ClientEvent::DelayElapsed => ClientEventView::DelayElapsed,
        }
    }
}

/// What the client does next.
#[derive(Clone, Copy, Debug, PartialEq, Eq, Structural)]
pub enum ClientAction {
    /// Dial the control channel.
    Dial,
    /// Read the next frame.
    Read,
    /// Start a session for this connection, and read the next frame.
    Spawn(ConnectionId),
    /// Warn of a frame that carries no command, and read the next frame.
    Warn,
    /// Drop the channel, if one is open, and wait this many seconds.
    Wait(u64),
    /// Stop: the address of the intermediary cannot be used.
    Fail,
    /// The event does not concern the client as it stands.
    Nothing,
}

/// The end of an attempt: the client waits before it dials again.
pub open spec fn retry() -> (ClientPhase, ClientAction) {
    (ClientPhase::Waiting, ClientAction::Wait(RECONNECT_DELAY_SECS))
}

/// The step of the client: the phase it moves to and what it does.
pub open spec fn spec_client_step(phase: ClientPhase, event: ClientEventView) -> (
    ClientPhase,
    ClientAction,
) {
    match (phase, event) {
        (ClientPhase::Starting, ClientEventView::Dialed(dial)) => match dial {
            Dial::Open => (ClientPhase::AwaitingAck, ClientAction::Read),
            Dial::Unreachable => retry(),
            Dial::BadAddress => (ClientPhase::Failed, ClientAction::Fail),
        },
        (ClientPhase::Connecting, ClientEventView::Dialed(dial)) => match dial {
            Dial::Open => (ClientPhase::AwaitingAck, ClientAction::Read),
            _ => retry(),
        },
        (ClientPhase::AwaitingAck, ClientEventView::Received(first)) => if first == Some(
            FrameView::Text(ack_text()),
        ) {
            (ClientPhase::Reading, ClientAction::Read)
        } else {
            retry()
        },
        (ClientPhase::Reading, ClientEventView::Received(Some(frame))) => match spec_decode(frame) {
            Reading::Command(ControllerCommand::NewConnection(id)) => (
                ClientPhase::Reading,
                ClientAction::Spawn(id),
            ),
            Reading::Invalid => (ClientPhase::Reading, ClientAction::Warn),
            Reading::Ignored => (ClientPhase::Reading, ClientAction::Read),
        },
        (ClientPhase::Reading, ClientEventView::Received(None)) => retry(),
        (ClientPhase::Waiting, ClientEventView::DelayElapsed) => (
            ClientPhase::Connecting,
            ClientAction::Dial,
        ),
        _ => (phase, ClientAction::Nothing),
    }
}

/// The phase of the client after a sequence of events.
pub open spec fn spec_client_run(phase: ClientPhase, events: Seq<ClientEventView>) -> ClientPhase
    decreases events.len(),
{
    if events.len() == 0 {
        phase
    } else {
        spec_client_step(spec_client_run(phase, events.drop_last()), events.last()).0
    }
}

/// Whether the client is past its first dial and has not stopped.
pub open spec fn running(phase: ClientPhase) -> bool {
    phase != ClientPhase::Starting && phase != ClientPhase::Failed
}

/// The controller client of the back.
#[derive(Clone, Copy, Debug, PartialEq, Eq, Structural)]
pub struct ControllerClient {
    pub phase: ClientPhase,
}

impl ControllerClient {
    /// A client that is about to dial the control channel for the first
    /// time.
    pub fn new() -> (client: ControllerClient)
        ensures
            client.phase == ClientPhase::Starting,
    {
        ControllerClient { phase: ClientPhase::Starting }
    }

    /// Takes one event and says what to do next. A frame that carries a
    /// command of the front, read after the acknowledgement, always starts
    /// the session of that command.
    pub fn step(&mut self, event: ClientEvent) -> (action: ClientAction)
        ensures
            (final(self).phase, action) == spec_client_step(old(self).phase, event@),
            forall|command: ControllerCommand|
                old(self).phase == ClientPhase::Reading && event@ == ClientEventView::Received(
                    Some(#[trigger] spec_encode(command)),
                ) ==> command == ControllerCommand::NewConnection(action->Spawn_0) && action
                    is Spawn,
    {
        let (phase, action) = match (self.phase, event) {
            (ClientPhase::Starting, ClientEvent::Dialed(dial)) => match dial {
                Dial::Open => (ClientPhase::AwaitingAck, ClientAction::Read),
                Dial::Unreachable => (
                    ClientPhase::Waiting,
                    ClientAction::Wait(RECONNECT_DELAY_SECS),
                ),
                Dial::BadAddress => (ClientPhase::Failed, ClientAction::Fail),
            },
            (ClientPhase::Connecting, ClientEvent::Dialed(dial)) => match dial {
                Dial::Open => (ClientPhase::AwaitingAck, ClientAction::Read),
                _ => (ClientPhase::Waiting, ClientAction::Wait(RECONNECT_DELAY_SECS)),
            },
            (ClientPhase::AwaitingAck, ClientEvent::Received(first)) => {
                let acknowledged = match &first {
                    Some(frame) => frame.is_ack(),
                    None => false,
                };
                if acknowledged {
                    (ClientPhase::Reading, ClientAction::Read)
                } else {
                    (ClientPhase::Waiting, ClientAction::Wait(RECONNECT_DELAY_SECS))
                }
            },
            (ClientPhase::Reading, ClientEvent::Received(Some(frame))) => {
                match ControllerCommand::decode(&frame) {
                    Reading::Command(ControllerCommand::NewConnection(id)) => (
                        ClientPhase::Reading,
                        ClientAction::Spawn(id),
                    ),
                    Reading::Invalid => (ClientPhase::Reading, ClientAction::Warn),
                    Reading::Ignored => (ClientPhase::Reading, ClientAction::Read),
                }
            },
            (ClientPhase::Reading, ClientEvent::Received(None)) => (
                ClientPhase::Waiting,
                ClientAction::Wait(RECONNECT_DELAY_SECS),
            ),
            (ClientPhase::Waiting, ClientEvent::DelayElapsed) => (
                ClientPhase::Connecting,
                ClientAction::Dial,
            ),
            (phase, _) => (phase, ClientAction::Nothing),
        };
        self.phase = phase;
        action
    }
}

/// The client stops in one case only: the address of the intermediary
/// turns out unusable at the first dial. Nothing else ever makes it fail,
/// and it never goes back to its first dial.
pub proof fn law_client_stops_only_on_a_bad_address_at_start(
    phase: ClientPhase,
    event: ClientEventView,
)
    ensures
        spec_client_step(phase, event).1 == ClientAction::Fail <==> phase == ClientPhase::Starting
            && event == ClientEventView::Dialed(Dial::BadAddress),
        spec_client_step(phase, event).0 == ClientPhase::Failed <==> phase == ClientPhase::Failed
            || (phase == ClientPhase::Starting && event == ClientEventView::Dialed(
            Dial::BadAddress,
        )),
        spec_client_step(phase, event).0 == ClientPhase::Starting ==> phase
            == ClientPhase::Starting,
{
}

/// Past its first dial the client never gives up: whatever events follow,
/// in whatever number and order, it has not stopped.
pub proof fn law_client_retries_for_ever(phase: ClientPhase, events: Seq<ClientEventView>)
    requires
        running(phase),
    ensures
        running(spec_client_run(phase, events)),
    decreases events.len(),
{
    if events.len() > 0 {
        law_client_retries_for_ever(phase, events.drop_last());
        law_client_stops_only_on_a_bad_address_at_start(
            spec_client_run(phase, events.drop_last()),
            events.last(),
        );
    }
}

/// Every failure at run time ends the attempt with a wait of five seconds,
/// and the wait is followed by a new dial: a dial that does not open the
/// channel, a first frame that is not the acknowledgement or never comes,
/// and a channel lost while commands are read.
pub proof fn law_failed_attempt_is_followed_by_a_dial(
    dial: Dial,
    first: Option<FrameView>,
)
    ensures
        spec_client_step(ClientPhase::Starting, ClientEventView::Dialed(Dial::Unreachable))
            == retry(),
        dial != Dial::Open ==> spec_client_step(
            ClientPhase::Connecting,
            ClientEventView::Dialed(dial),
        ) == retry(),
        first != Some(FrameView::Text(ack_text())) ==> spec_client_step(
            ClientPhase::AwaitingAck,
            ClientEventView::Received(first),
        ) == retry(),
        spec_client_step(ClientPhase::Reading, ClientEventView::Received(None)) == retry(),
        retry() == (ClientPhase::Waiting, ClientAction::Wait(5)),
        spec_client_step(ClientPhase::Waiting, ClientEventView::DelayElapsed) == (
            ClientPhase::Connecting,
            ClientAction::Dial,
        ),
{
}

/// Sessions are started from frames read after the acknowledgement and from
/// no others: no frame of a channel that has not acknowledged is taken for a
/// command, and commands are read only on a channel whose first frame was
/// the acknowledgement.
pub proof fn law_sessions_start_only_after_the_ack(phase: ClientPhase, event: ClientEventView)
    ensures
        spec_client_step(phase, event).1 is Spawn ==> phase == ClientPhase::Reading,
        phase != ClientPhase::Reading && spec_client_step(phase, event).0 == ClientPhase::Reading
            ==> phase == ClientPhase::AwaitingAck && event == ClientEventView::Received(
            Some(FrameView::Text(ack_text())),
        ),
{
}

} // verus!
