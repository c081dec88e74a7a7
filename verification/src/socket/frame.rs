//! The frames that travel over a connection.

use vstd::prelude::*;

verus! {

/// The close code for a normal closure.
pub const CLOSE_NORMAL: u16 = 1000;

/// The reason given with a close frame: a status code and a text.
#[derive(Debug, Clone, PartialEq, Eq)]
pub struct CloseFrame {
    pub code: u16,
    pub reason: String,
}

/// One unit of transport data: text, binary, ping, pong or close.
#[derive(Debug, Clone, PartialEq, Eq)]
pub enum Frame {
    Text(String),
    Binary(Vec<u8>),
    Ping(Vec<u8>),
    Pong(Vec<u8>),
    Close(Option<CloseFrame>),
}

/// A close reason as a mathematical value.
pub struct CloseFrameView {
    pub code: u16,
    pub reason: Seq<char>,
}

/// A frame as a mathematical value.
pub enum FrameView {
    Text(Seq<char>),
    Binary(Seq<u8>),
    Ping(Seq<u8>),
    Pong(Seq<u8>),
    Close(Option<CloseFrameView>),
}

impl View for CloseFrame {
    type V = CloseFrameView;

    open spec fn view(&self) -> CloseFrameView {
        CloseFrameView { code: self.code, reason: self.reason@ }
    }
}

impl View for Frame {
    type V = FrameView;

    open spec fn view(&self) -> FrameView {
        match *self {
            Frame::Text(text) => FrameView::Text(text@),
            Frame::Binary(payload) => FrameView::Binary(payload@),
            Frame::Ping(payload) => FrameView::Ping(payload@),
            Frame::Pong(payload) => FrameView::Pong(payload@),
            Frame::Close(None) => FrameView::Close(None),
            Frame::Close(Some(reason)) => FrameView::Close(Some(reason@)),
        }
    }
}

impl FrameView {
    /// The close frame sent to a session that has been idle for too long.
    pub open spec fn expiry_notice() -> FrameView {
        FrameView::Close(Some(CloseFrameView { code: CLOSE_NORMAL, reason: "expired"@ }))
    }
}

impl Frame {
    /// A text frame holding a copy of `text`.
    pub fn text(text: &str) -> (frame: Frame)
        ensures
            frame@ == FrameView::Text(text@),
    {
        Frame::Text(text.to_owned())
    }

    /// The close frame sent to a session that has been idle for too long:
    /// a normal closure with the reason `expired`.
    pub fn expiry_notice() -> (frame: Frame)
        ensures
            frame@ == FrameView::expiry_notice(),
    {
        Frame::Close(Some(CloseFrame { code: CLOSE_NORMAL, reason: "expired".to_owned() }))
    }
}

} // verus!
