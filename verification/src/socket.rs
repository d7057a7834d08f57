//! What comes in from a web socket and what goes out to it.
use vstd::prelude::*;

verus! {

/// A message that came in.
#[derive(Debug, PartialEq, Eq)]
pub enum Inbound {
    Text(String),
    Binary(Vec<u8>),
    Ping(Vec<u8>),
    /// A pong, a close or a broken message.
    Other,
}

pub enum InboundView {
    Text(Seq<char>),
    Binary(Seq<u8>),
    Ping(Seq<u8>),
    Other,
}

impl View for Inbound {
    type V = InboundView;

    open spec fn view(&self) -> InboundView {
        match self {
            Inbound::Text(text) => InboundView::Text(text@),
            Inbound::Binary(bytes) => InboundView::Binary(bytes@),
            Inbound::Ping(bytes) => InboundView::Ping(bytes@),
            Inbound::Other => InboundView::Other,
        }
    }
}

/// A message that is to go out.
#[derive(Debug, PartialEq, Eq)]
pub enum Frame {
    Text(String),
    Binary(Vec<u8>),
    Pong(Vec<u8>),
}

pub enum FrameView {
    Text(Seq<char>),
    Binary(Seq<u8>),
    Pong(Seq<u8>),
}

impl View for Frame {
    type V = FrameView;

    open spec fn view(&self) -> FrameView {
        match self {
            Frame::Text(text) => FrameView::Text(text@),
            Frame::Binary(bytes) => FrameView::Binary(bytes@),
            Frame::Pong(bytes) => FrameView::Pong(bytes@),
        }
    }
}

/// A message is seen whole: its kind, and every character or byte of it.
pub proof fn law_messages_are_viewed_whole(inbound: Inbound, frame: Frame)
    ensures
        match inbound {
            Inbound::Text(text) => inbound@ == InboundView::Text(text@),
            Inbound::Binary(bytes) => inbound@ == InboundView::Binary(bytes@),
            Inbound::Ping(bytes) => inbound@ == InboundView::Ping(bytes@),
            Inbound::Other => inbound@ == InboundView::Other,
        },
        match frame {
            Frame::Text(text) => frame@ == FrameView::Text(text@),
            Frame::Binary(bytes) => frame@ == FrameView::Binary(bytes@),
            Frame::Pong(bytes) => frame@ == FrameView::Pong(bytes@),
        },
{
}

} // verus!
