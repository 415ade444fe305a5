//! The commands that the front pushes to the back over the control channel.
//!
//! A command travels as one text frame. `NewConnection` is written as the
//! canonical text of the connection's identifier and nothing else.

use crate::frame::{Frame, FrameView};
use crate::id::{canonical_text, parsed_uuid, ConnectionId};
use vstd::prelude::*;

verus! {

/// A command for the back.
#[derive(Clone, Copy, Debug, PartialEq, Eq, Structural)]
pub enum ControllerCommand {
    /// Open a data channel for the connection with this identifier.
    NewConnection(ConnectionId),
}

/// What the back makes of a frame received on the control channel.
#[derive(Clone, Copy, Debug, PartialEq, Eq, Structural)]
pub enum Reading {
    /// The frame carries this command.
    Command(ControllerCommand),
    /// A text frame that carries no command: it is logged and skipped.
    Invalid,
    /// Not a text frame: it is passed over in silence.
    Ignored,
}

/// The frame that carries `command`.
pub open spec fn spec_encode(command: ControllerCommand) -> FrameView {
    match command {
        ControllerCommand::NewConnection(id) => FrameView::Text(canonical_text(id@)),
    }
}

/// The reading of `frame` on the control channel.
pub open spec fn spec_decode(frame: FrameView) -> Reading {
    match frame {
        FrameView::Text(text) => match parsed_uuid(text) {
            Some(value) => Reading::Command(
                ControllerCommand::NewConnection(ConnectionId { value }),
            ),
            None => Reading::Invalid,
        },
        _ => Reading::Ignored,
    }
}

impl ControllerCommand {
    /// Writes the command as the frame to send to the back.
    pub fn encode(&self) -> (frame: Frame)
        ensures
            frame@ == spec_encode(*self),
    {
        match self {
            ControllerCommand::NewConnection(id) => Frame::naming(*id),
        }
    }

    /// Reads a frame received on the control channel. Every frame that
    /// [`ControllerCommand::encode`] writes is read back as the command it
    /// was written from.
    pub fn decode(frame: &Frame) -> (reading: Reading)
        ensures
            reading == spec_decode(frame@),
            forall|command: ControllerCommand| #[trigger]
                spec_encode(command) == frame@ ==> reading == Reading::Command(command),
    {
        match frame {
            Frame::Text(text) => {
                match ConnectionId::parse(text.as_str()) {
                    Ok(id) => {
                        assert forall|command: ControllerCommand| #[trigger]
                            spec_encode(command) == frame@ implies Reading::Command(
                            ControllerCommand::NewConnection(id),
                        ) == Reading::Command(command) by {
                            let ControllerCommand::NewConnection(sent) = command;
                            assert(canonical_text(sent@) == text@);
                        }
                        Reading::Command(ControllerCommand::NewConnection(id))
                    },
                    Err(_) => {
                        assert forall|command: ControllerCommand| #[trigger]
                            spec_encode(command) == frame@ implies false by {
                            let ControllerCommand::NewConnection(sent) = command;
                            assert(canonical_text(sent@) == text@);
                        }
                        Reading::Invalid
                    },
                }
            },
            _ => Reading::Ignored,
        }
    }
}

} // verus!
