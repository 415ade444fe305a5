//! The controller bridge: the front's side of the control channel.
//!
//! Once the upgrade is accepted the bridge sends the acknowledgement, then
//! serves: a reader drains what the back sends and minds only a close
//! frame, a writer drains the command queue onto the socket. Whatever ends
//! the session, the controller slot is cleared afterwards.

use crate::command::ControllerCommand;
use crate::frame::{inbound, Frame, FrameView};
use vstd::prelude::*;

verus! {

/// Whether the reader of the control channel goes on after what arrived: it
/// stops on a close frame and at the end of the stream, and discards
/// everything else.
pub open spec fn spec_keeps_reading(event: Option<FrameView>) -> bool {
    match event {
        Some(FrameView::Close) => false,
        Some(_) => true,
        None => false,
    }
}

/// The reader of the control channel: decides on one received frame, or on
/// `None` once the stream has ended or failed. `true` means the frame is
/// discarded and the reader goes on; `false` ends the controller's session.
pub fn keeps_reading(event: &Option<Frame>) -> (go_on: bool)
    ensures
        go_on == spec_keeps_reading(inbound(*event)),
{
    match event {
        Some(Frame::Close) => false,
        Some(_) => true,
        None => false,
    }
}

/// Where the bridge stands.
#[derive(Clone, Copy, Debug, PartialEq, Eq, Structural)]
pub enum BridgePhase {
    /// The acknowledgement is being sent.
    Greeting,
    /// Commands are passed on.
    Serving,
    /// The session is over.
    Closed,
}

/// What happened to the bridge.
#[derive(Clone, Copy, Debug, PartialEq, Eq, Structural)]
pub enum BridgeEvent {
    /// The send of the acknowledgement ended; `true` if it went out.
    AckSent(bool),
    /// The reader has stopped.
    ReaderStopped,
    /// The command queue handed out a command, or `None` once it is closed.
    Command(Option<ControllerCommand>),
    /// The send of a command ended; `true` if it went out.
    CommandSent(bool),
}

/// What the bridge does next.
#[derive(Clone, Copy, Debug, PartialEq, Eq, Structural)]
pub enum BridgeAction {
    /// Start the reader and wait for commands.
    Serve,
    /// Send the frame of this command, then wait for the next.
    Send(ControllerCommand),
    /// Wait for the next command.
    Continue,
    /// End the session and clear the controller slot.
    Terminate,
    /// The event does not concern the bridge as it stands.
    Nothing,
}

/// The step of the bridge: the phase it moves to and what it does.
pub open spec fn spec_bridge_step(phase: BridgePhase, event: BridgeEvent) -> (
    BridgePhase,
    BridgeAction,
) {
    match (phase, event) {
        (BridgePhase::Greeting, BridgeEvent::AckSent(sent)) => if sent {
            (BridgePhase::Serving, BridgeAction::Serve)
        } else {
            (BridgePhase::Closed, BridgeAction::Terminate)
        },
        (BridgePhase::Serving, BridgeEvent::ReaderStopped) => (
            BridgePhase::Closed,
            BridgeAction::Terminate,
        ),
        (BridgePhase::Serving, BridgeEvent::Command(Some(command))) => (
            BridgePhase::Serving,
            BridgeAction::Send(command),
        ),
        (BridgePhase::Serving, BridgeEvent::Command(None)) => (
            BridgePhase::Closed,
            BridgeAction::Terminate,
        ),
        (BridgePhase::Serving, BridgeEvent::CommandSent(sent)) => if sent {
            (BridgePhase::Serving, BridgeAction::Continue)
        } else {
            (BridgePhase::Closed, BridgeAction::Terminate)
        },
        _ => (phase, BridgeAction::Nothing),
    }
}

/// The bridge of one bound controller.
#[derive(Clone, Copy, Debug, PartialEq, Eq, Structural)]
pub struct Bridge {
    pub phase: BridgePhase,
}

impl Bridge {
    /// The bridge of a controller that has just been bound: the
    /// acknowledgement is to be sent first.
    pub fn new() -> (bridge: Bridge)
        ensures
            bridge.phase == BridgePhase::Greeting,
    {
        Bridge { phase: BridgePhase::Greeting }
    }

    /// The first frame on the control channel: the acknowledgement.
    pub fn greeting(&self) -> (frame: Frame)
        ensures
            frame@ == FrameView::Text(crate::frame::ack_text()),
    {
        Frame::ack()
    }

    /// Whether the session is over.
    pub fn is_closed(&self) -> (b: bool)
        ensures
            b == (self.phase == BridgePhase::Closed),
    {
        self.phase == BridgePhase::Closed
    }

    /// Takes one event and says what to do next.
    pub fn step(&mut self, event: BridgeEvent) -> (action: BridgeAction)
        ensures
            (final(self).phase, action) == spec_bridge_step(old(self).phase, event),
    {
        let (phase, action) = match (self.phase, event) {
            (BridgePhase::Greeting, BridgeEvent::AckSent(sent)) => if sent {
                (BridgePhase::Serving, BridgeAction::Serve)
            } else {
                (BridgePhase::Closed, BridgeAction::Terminate)
            },
            (BridgePhase::Serving, BridgeEvent::ReaderStopped) => (
                BridgePhase::Closed,
                BridgeAction::Terminate,
            ),
            (BridgePhase::Serving, BridgeEvent::Command(Some(command))) => (
                BridgePhase::Serving,
                BridgeAction::Send(command),
            ),
            (BridgePhase::Serving, BridgeEvent::Command(None)) => (
                BridgePhase::Closed,
                BridgeAction::Terminate,
            ),
            (BridgePhase::Serving, BridgeEvent::CommandSent(sent)) => if sent {
                (BridgePhase::Serving, BridgeAction::Continue)
            } else {
                (BridgePhase::Closed, BridgeAction::Terminate)
            },
            (phase, _) => (phase, BridgeAction::Nothing),
        };
        self.phase = phase;
        action
    }
}

/// The bridge terminates exactly once: the step that closes it says
/// `Terminate`, and a closed bridge does nothing more. Commands are sent in
/// the order in which the queue hands them out, one frame for each.
pub proof fn law_bridge_terminates_once(phase: BridgePhase, event: BridgeEvent)
    ensures
        spec_bridge_step(phase, event).1 == BridgeAction::Terminate <==> phase
            != BridgePhase::Closed && spec_bridge_step(phase, event).0 == BridgePhase::Closed,
        phase == BridgePhase::Closed ==> spec_bridge_step(phase, event) == (
            BridgePhase::Closed,
            BridgeAction::Nothing,
        ),
        forall|command: ControllerCommand|
            spec_bridge_step(phase, event).1 == BridgeAction::Send(command) <==> phase
                == BridgePhase::Serving && event == BridgeEvent::Command(Some(command)),
{
}

} // verus!
