//! Messages and close frames, as sessions exchange them with their peers.
use vstd::prelude::*;

verus! {

/// Why a connection is closed.
#[derive(Clone, Copy, Debug, PartialEq, Eq, Structural)]
pub enum CloseCode {
    /// The purpose of the connection has been fulfilled.
    Normal,
    /// An endpoint is going away.
    Away,
    /// A protocol error.
    Protocol,
    /// A type of data that the endpoint cannot accept.
    Unsupported,
    /// No status code was in the close frame.
    Status,
    /// The connection was dropped without a close frame.
    Abnormal,
    /// Data that does not fit the type of its message.
    Invalid,
    /// A message that violates the endpoint's policy.
    Policy,
    /// A message that is too big to process.
    Size,
    /// An extension that the client expected was not negotiated.
    Extension,
    /// An unexpected condition at the server.
    Error,
    /// The server is restarting.
    Restart,
    /// The server is overloaded.
    Again,
}

/// The content of a close message: a code, and a reason in words.
#[derive(Debug, PartialEq, Eq)]
pub struct CloseFrame {
    /// Why the connection is closed.
    pub code: CloseCode,
    /// The reason as text.
    pub reason: String,
}

/// A message of a WebSocket connection.
#[derive(Debug, PartialEq, Eq)]
pub enum Message {
    /// A text message.
    Text(String),
    /// A binary message.
    Binary(Vec<u8>),
    /// A ping, with its payload.
    Ping(Vec<u8>),
    /// A pong, with its payload.
    Pong(Vec<u8>),
    /// A close message, with or without a close frame.
    Close(Option<CloseFrame>),
}

/// The mathematical content of a [`CloseFrame`].
#[verifier::ext_equal]
pub struct CloseFrameView {
    pub code: CloseCode,
    pub reason: Seq<char>,
}

/// The mathematical content of a [`Message`].
#[verifier::ext_equal]
pub enum MessageView {
    Text(Seq<char>),
    Binary(Seq<u8>),
    Ping(Seq<u8>),
    Pong(Seq<u8>),
    Close(Option<CloseFrameView>),
}

impl View for CloseFrame {
    type V = CloseFrameView;

    open spec fn view(&self) -> CloseFrameView {
        CloseFrameView { code: self.code, reason: self.reason@ }
    }
}

/// The content of a close frame that may be absent.
pub open spec fn frame_view(frame: Option<CloseFrame>) -> Option<CloseFrameView> {
    match frame {
        Some(frame) => Some(frame@),
        None => None,
    }
}

impl View for Message {
    type V = MessageView;

    open spec fn view(&self) -> MessageView {
        match *self {
            Message::Text(text) => MessageView::Text(text@),
            Message::Binary(bytes) => MessageView::Binary(bytes@),
            Message::Ping(bytes) => MessageView::Ping(bytes@),
            Message::Pong(bytes) => MessageView::Pong(bytes@),
            Message::Close(frame) => MessageView::Close(frame_view(frame)),
        }
    }
}

/// The content of a message is its kind, with the message's own text, its own bytes, or the code
/// and the reason of its own frame.
pub proof fn message_content(message: Message)
    ensures
        message@ is Text <==> message is Text,
        message@ is Binary <==> message is Binary,
        message@ is Ping <==> message is Ping,
        message@ is Pong <==> message is Pong,
        message@ is Close <==> message is Close,
        message matches Message::Text(text) ==> message@->Text_0 == text@,
        message matches Message::Binary(bytes) ==> message@->Binary_0 == bytes@,
        message matches Message::Ping(bytes) ==> message@->Ping_0 == bytes@,
        message matches Message::Pong(bytes) ==> message@->Pong_0 == bytes@,
        message matches Message::Close(None) ==> message@->Close_0 is None,
        message matches Message::Close(Some(frame)) ==> message@->Close_0 == Some(
            CloseFrameView { code: frame.code, reason: frame.reason@ },
        ),
{
}

/// The copy of a close frame has its code and its reason.
pub proof fn copied_frame(frame: &CloseFrame, copy: CloseFrame)
    requires
        call_ensures(CloseFrame::clone, (frame,), copy),
    ensures
        copy.code == frame.code,
        copy.reason@ == frame.reason@,
{
}

impl Clone for CloseFrame {
    fn clone(&self) -> (frame: Self)
        ensures
            frame == *self,
    {
        CloseFrame { code: self.code, reason: self.reason.clone() }
    }
}

} // verus!
