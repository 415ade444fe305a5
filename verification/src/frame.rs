//! The frames of a WebSocket, as far as the tunnel reads them.

use crate::id::{canonical_text, ConnectionId};
use vstd::prelude::*;
use vstd::string::StringExecFns;

verus! {

/// One WebSocket frame. Control frames carry no payload here: the tunnel
/// never reads it.
#[derive(Debug, PartialEq, Eq)]
pub enum Frame {
    Text(String),
    Binary(Vec<u8>),
    Ping,
    Pong,
    Close,
}

/// The mathematical content of a [`Frame`].
pub enum FrameView {
    Text(Seq<char>),
    Binary(Seq<u8>),
    Ping,
    Pong,
    Close,
}

impl View for Frame {
    type V = FrameView;

    open spec fn view(&self) -> FrameView {
        match self {
            Frame::Text(t) => FrameView::Text(t@),
            Frame::Binary(b) => FrameView::Binary(b@),
            Frame::Ping => FrameView::Ping,
            Frame::Pong => FrameView::Pong,
            Frame::Close => FrameView::Close,
        }
    }
}

/// What arrived on a WebSocket: a frame, or `None` once the stream has ended
/// or failed.
pub open spec fn inbound(event: Option<Frame>) -> Option<FrameView> {
    match event {
        Some(frame) => Some(frame@),
        None => None,
    }
}

/// The text of the acknowledgement that opens the control channel.
pub open spec fn ack_text() -> Seq<char> {
    seq!['a', 'c', 'k']
}

impl Frame {
    /// A text frame with the given text.
    pub fn text(text: &str) -> (frame: Frame)
        ensures
            frame@ == FrameView::Text(text@),
    {
        Frame::Text(String::from_str(text))
    }

    /// A binary frame with the given payload, which may be empty.
    pub fn binary(payload: Vec<u8>) -> (frame: Frame)
        ensures
            frame@ == FrameView::Binary(payload@),
    {
        Frame::Binary(payload)
    }

    /// The acknowledgement that the front sends first on the control channel.
    pub fn ack() -> (frame: Frame)
        ensures
            frame@ == FrameView::Text(ack_text()),
    {
        proof {
            reveal_strlit("ack");
            assert("ack"@ =~= ack_text());
        }
        Frame::Text(String::from_str("ack"))
    }

    /// Whether this frame is the acknowledgement: a text frame that reads
    /// exactly `ack`.
    pub fn is_ack(&self) -> (b: bool)
        ensures
            b == (self@ == FrameView::Text(ack_text())),
    {
        match self {
            Frame::Text(t) => {
                proof {
                    reveal_strlit("ack");
                    assert("ack"@ =~= ack_text());
                }
                let ack = String::from_str("ack");
                *t == ack
            },
            _ => false,
        }
    }

    /// The frame that names a connection: a text frame with the canonical
    /// text of its identifier. The front sends it as a command on the
    /// control channel; the back sends it first on a data channel.
    pub fn naming(id: ConnectionId) -> (frame: Frame)
        ensures
            frame@ == FrameView::Text(canonical_text(id@)),
    {
        Frame::Text(id.to_text())
    }
}

} // verus!
