//! The inbound pump's frame handling.  Each frame read off the control
//! connection is classified and answered: keepalives are echoed immediately
//! on the outbound queue without involving the dispatcher, binary frames are
//! decoded into commands, a close frame ends the pump normally, and anything
//! else -- a malformed payload or an unexpected frame kind -- is a protocol
//! error fatal to this connection.

use vstd::prelude::*;

use crate::codec::{decode_command, parse_command};
use crate::wire::{RemoteCommand, RemoteCommandView};

verus! {

/// One frame of the duplex connection, as the transport hands it over.
pub enum Frame {
    Binary(Vec<u8>),
    Text(String),
    Ping(Vec<u8>),
    Pong(Vec<u8>),
    Close,
}

pub enum FrameView {
    Binary(Seq<u8>),
    Text(Seq<char>),
    Ping(Seq<u8>),
    Pong(Seq<u8>),
    Close,
}

impl View for Frame {
    type V = FrameView;

    open spec fn view(&self) -> FrameView {
        match self {
            Frame::Binary(b) => FrameView::Binary(b@),
            Frame::Text(t) => FrameView::Text(t@),
            Frame::Ping(p) => FrameView::Ping(p@),
            Frame::Pong(p) => FrameView::Pong(p@),
            Frame::Close => FrameView::Close,
        }
    }
}

/// A protocol error that is fatal to the inbound pump.
#[derive(Debug)]
pub enum WsError {
    /// A binary frame whose payload is not a well-formed command.
    MessageDecodeError,
    /// A frame kind the protocol does not use (text, or an unsolicited pong).
    UnexpectedFrame,
}

pub enum WsErrorView {
    MessageDecodeError,
    UnexpectedFrame,
}

impl View for WsError {
    type V = WsErrorView;

    open spec fn view(&self) -> WsErrorView {
        match self {
            WsError::MessageDecodeError => WsErrorView::MessageDecodeError,
            WsError::UnexpectedFrame => WsErrorView::UnexpectedFrame,
        }
    }
}

/// What the pump does with one inbound frame.
pub enum InboundAction {
    /// Answer a keepalive at once: a pong with the ping's own payload.
    ReplyPong(Vec<u8>),
    /// Hand a decoded command to the dispatcher and await its response.
    Dispatch(RemoteCommand),
    /// The peer closed the connection; the pump ends normally.
    Closed,
    /// Protocol violation: the pump ends with this error.
    Fatal(WsError),
}

pub enum InboundActionView {
    ReplyPong(Seq<u8>),
    Dispatch(RemoteCommandView),
    Closed,
    Fatal(WsErrorView),
}

impl View for InboundAction {
    type V = InboundActionView;

    open spec fn view(&self) -> InboundActionView {
        match self {
            InboundAction::ReplyPong(p) => InboundActionView::ReplyPong(p@),
            InboundAction::Dispatch(c) => InboundActionView::Dispatch(c@),
            InboundAction::Closed => InboundActionView::Closed,
            InboundAction::Fatal(e) => InboundActionView::Fatal(e@),
        }
    }
}

/// The pump's decision for each frame kind.
pub open spec fn handle_frame_spec(f: FrameView) -> InboundActionView {
    match f {
        FrameView::Ping(payload) => InboundActionView::ReplyPong(payload),
        FrameView::Binary(bytes) => match parse_command(bytes) {
            Option::Some(c) => InboundActionView::Dispatch(c),
            Option::None => InboundActionView::Fatal(WsErrorView::MessageDecodeError),
        },
        FrameView::Close => InboundActionView::Closed,
        FrameView::Text(_) => InboundActionView::Fatal(WsErrorView::UnexpectedFrame),
        FrameView::Pong(_) => InboundActionView::Fatal(WsErrorView::UnexpectedFrame),
    }
}

/// Classifies one inbound frame and produces the pump's action for it.  The
/// function takes nothing but the frame: what it does with a keepalive can
/// not depend on any command being processed.
pub fn handle_frame(f: Frame) -> (r: InboundAction)
    ensures
        r@ == handle_frame_spec(f@),
{
    match f {
        Frame::Ping(payload) => InboundAction::ReplyPong(payload),
        Frame::Binary(bytes) => match decode_command(bytes.as_slice()) {
            Some(c) => InboundAction::Dispatch(c),
            None => InboundAction::Fatal(WsError::MessageDecodeError),
        },
        Frame::Close => InboundAction::Closed,
        Frame::Text(_) => InboundAction::Fatal(WsError::UnexpectedFrame),
        Frame::Pong(_) => InboundAction::Fatal(WsError::UnexpectedFrame),
    }
}

/// A keepalive is always answered with a pong carrying the very same
/// payload bytes, whatever else the agent is doing.
pub proof fn lemma_keepalive_echoed(payload: Seq<u8>)
    ensures
        handle_frame_spec(FrameView::Ping(payload)) == InboundActionView::ReplyPong(payload),
{
}

} // verus!
