//! Close codes, close frames and messages, as the crate `tungstenite` has them.
use crate::socket::{CloseCode, CloseFrame, CloseFrameView, Message, MessageView};
use std::borrow::Cow;
use tokio_tungstenite::tungstenite::protocol::frame::coding::CloseCode as TungsteniteCloseCode;
use tokio_tungstenite::tungstenite::protocol::frame::Frame;
use tokio_tungstenite::tungstenite::protocol::CloseFrame as TungsteniteCloseFrame;
use tokio_tungstenite::tungstenite::Message as TungsteniteMessage;
use vstd::prelude::*;

verus! {

/// `tungstenite`'s close code. The declaration shows its variants, and nothing is claimed of it.
#[verifier::external_type_specification]
pub struct ExTungsteniteCloseCode(TungsteniteCloseCode);

/// `tungstenite`'s close frame. The declaration shows its two fields, and nothing is claimed of
/// it.
#[verifier::external_type_specification]
pub struct ExTungsteniteCloseFrame<'t>(TungsteniteCloseFrame<'t>);

/// `tungstenite`'s raw frame, of which nothing is known here.
#[verifier::external_type_specification]
#[verifier::external_body]
pub struct ExFrame(Frame);

/// `tungstenite`'s message. The declaration shows its variants, and nothing is claimed of it.
#[verifier::external_type_specification]
pub struct ExTungsteniteMessage(TungsteniteMessage);

/// `tungstenite`'s counterpart of a close code.
pub open spec fn wire_code(code: CloseCode) -> TungsteniteCloseCode {
    match code {
        CloseCode::Normal => TungsteniteCloseCode::Normal,
        CloseCode::Away => TungsteniteCloseCode::Away,
        CloseCode::Protocol => TungsteniteCloseCode::Protocol,
        CloseCode::Unsupported => TungsteniteCloseCode::Unsupported,
        CloseCode::Status => TungsteniteCloseCode::Status,
        CloseCode::Abnormal => TungsteniteCloseCode::Abnormal,
        CloseCode::Invalid => TungsteniteCloseCode::Invalid,
        CloseCode::Policy => TungsteniteCloseCode::Policy,
        CloseCode::Size => TungsteniteCloseCode::Size,
        CloseCode::Extension => TungsteniteCloseCode::Extension,
        CloseCode::Error => TungsteniteCloseCode::Error,
        CloseCode::Restart => TungsteniteCloseCode::Restart,
        CloseCode::Again => TungsteniteCloseCode::Again,
    }
}

/// The code has a counterpart among this library's close codes: it is none of the codes for TLS
/// failures, for reserved numbers, for frameworks, for applications or for invalid numbers.
pub open spec fn code_supported(code: TungsteniteCloseCode) -> bool {
    !(code is Tls || code is Reserved || code is Iana || code is Library || code is Bad)
}

/// `tungstenite`'s counterpart of a close frame.
pub open spec fn wire_frame<'t>(frame: CloseFrame) -> TungsteniteCloseFrame<'t> {
    TungsteniteCloseFrame { code: wire_code(frame.code), reason: Cow::Owned(frame.reason) }
}

/// `tungstenite`'s counterpart of a message.
pub open spec fn wire_message(message: Message) -> TungsteniteMessage {
    match message {
        Message::Text(text) => TungsteniteMessage::Text(text),
        Message::Binary(bytes) => TungsteniteMessage::Binary(bytes),
        Message::Ping(bytes) => TungsteniteMessage::Ping(bytes),
        Message::Pong(bytes) => TungsteniteMessage::Pong(bytes),
        Message::Close(Some(frame)) => TungsteniteMessage::Close(Some(wire_frame(frame))),
        Message::Close(None) => TungsteniteMessage::Close(None),
    }
}

/// The message has a counterpart among this library's messages: it is no raw frame, and no close
/// message with an unsupported code.
pub open spec fn message_supported(message: TungsteniteMessage) -> bool {
    match message {
        TungsteniteMessage::Close(Some(frame)) => code_supported(frame.code),
        TungsteniteMessage::Frame(_) => false,
        _ => true,
    }
}

/// The close code whose counterpart this is.
pub open spec fn native_code(code: TungsteniteCloseCode) -> CloseCode
    recommends
        code_supported(code),
{
    choose|native: CloseCode| wire_code(native) == code
}

/// The content of a message of `tungstenite`, as a message of this library has it.
pub open spec fn native_message(message: TungsteniteMessage) -> MessageView
    recommends
        message_supported(message),
{
    match message {
        TungsteniteMessage::Text(text) => MessageView::Text(text@),
        TungsteniteMessage::Binary(bytes) => MessageView::Binary(bytes@),
        TungsteniteMessage::Ping(bytes) => MessageView::Ping(bytes@),
        TungsteniteMessage::Pong(bytes) => MessageView::Pong(bytes@),
        TungsteniteMessage::Close(Some(frame)) => MessageView::Close(
            Some(CloseFrameView { code: native_code(frame.code), reason: frame.reason@ }),
        ),
        _ => MessageView::Close(None),
    }
}

/// The counterpart of a close code is supported, and is the counterpart of no other close code.
pub proof fn code_round_trip(code: CloseCode)
    ensures
        code_supported(wire_code(code)),
        native_code(wire_code(code)) == code,
{
    let native = native_code(wire_code(code));
    assert(wire_code(native) == wire_code(code));
}

/// Every supported code of `tungstenite` is the counterpart of a close code.
pub proof fn supported_code_round_trip(code: TungsteniteCloseCode)
    requires
        code_supported(code),
    ensures
        wire_code(native_code(code)) == code,
{
    assert(wire_code(CloseCode::Normal) is Normal);
    assert(wire_code(CloseCode::Away) is Away);
    assert(wire_code(CloseCode::Protocol) is Protocol);
    assert(wire_code(CloseCode::Unsupported) is Unsupported);
    assert(wire_code(CloseCode::Status) is Status);
    assert(wire_code(CloseCode::Abnormal) is Abnormal);
    assert(wire_code(CloseCode::Invalid) is Invalid);
    assert(wire_code(CloseCode::Policy) is Policy);
    assert(wire_code(CloseCode::Size) is Size);
    assert(wire_code(CloseCode::Extension) is Extension);
    assert(wire_code(CloseCode::Error) is Error);
    assert(wire_code(CloseCode::Restart) is Restart);
    assert(wire_code(CloseCode::Again) is Again);
    assert(exists|native: CloseCode| wire_code(native) == code);
}

/// Every message survives the way into a message of `tungstenite` and back.
pub proof fn message_round_trip(message: Message)
    ensures
        message_supported(wire_message(message)),
        native_message(wire_message(message)) == message@,
{
    if let Message::Close(Some(frame)) = message {
        code_round_trip(frame.code);
    }
}

impl From<CloseCode> for TungsteniteCloseCode {
    fn from(code: CloseCode) -> (wire: Self) {
        match code {
            CloseCode::Normal => Self::Normal,
            CloseCode::Away => Self::Away,
            CloseCode::Protocol => Self::Protocol,
            CloseCode::Unsupported => Self::Unsupported,
            CloseCode::Status => Self::Status,
            CloseCode::Abnormal => Self::Abnormal,
            CloseCode::Invalid => Self::Invalid,
            CloseCode::Policy => Self::Policy,
            CloseCode::Size => Self::Size,
            CloseCode::Extension => Self::Extension,
            CloseCode::Error => Self::Error,
            CloseCode::Restart => Self::Restart,
            CloseCode::Again => Self::Again,
        }
    }
}

impl vstd::std_specs::convert::FromSpecImpl<CloseCode> for TungsteniteCloseCode {
    open spec fn obeys_from_spec() -> bool {
        true
    }

    open spec fn from_spec(code: CloseCode) -> Self {
        wire_code(code)
    }
}

impl<'t> From<CloseFrame> for TungsteniteCloseFrame<'t> {
    fn from(frame: CloseFrame) -> (wire: Self) {
        Self { code: TungsteniteCloseCode::from(frame.code), reason: Cow::Owned(frame.reason) }
    }
}

impl<'t> vstd::std_specs::convert::FromSpecImpl<CloseFrame> for TungsteniteCloseFrame<'t> {
    open spec fn obeys_from_spec() -> bool {
        true
    }

    open spec fn from_spec(frame: CloseFrame) -> Self {
        wire_frame(frame)
    }
}

impl From<Message> for TungsteniteMessage {
    fn from(message: Message) -> (wire: Self) {
        match message {
            Message::Text(text) => Self::Text(text),
            Message::Binary(bytes) => Self::Binary(bytes),
            Message::Ping(bytes) => Self::Ping(bytes),
            Message::Pong(bytes) => Self::Pong(bytes),
            Message::Close(Some(frame)) => Self::Close(Some(TungsteniteCloseFrame::from(frame))),
            Message::Close(None) => Self::Close(None),
        }
    }
}

impl vstd::std_specs::convert::FromSpecImpl<Message> for TungsteniteMessage {
    open spec fn obeys_from_spec() -> bool {
        true
    }

    open spec fn from_spec(message: Message) -> Self {
        wire_message(message)
    }
}

/// Whether a close code of `tungstenite` has a counterpart here.
pub fn is_code_supported(code: &TungsteniteCloseCode) -> (supported: bool)
    ensures
        supported == code_supported(*code),
{
    match code {
        TungsteniteCloseCode::Tls
        | TungsteniteCloseCode::Reserved(_)
        | TungsteniteCloseCode::Iana(_)
        | TungsteniteCloseCode::Library(_)
        | TungsteniteCloseCode::Bad(_) => false,
        _ => true,
    }
}

/// Whether a message of `tungstenite` has a counterpart here.
pub fn is_message_supported(message: &TungsteniteMessage) -> (supported: bool)
    ensures
        supported == message_supported(*message),
{
    match message {
        TungsteniteMessage::Close(Some(frame)) => is_code_supported(&frame.code),
        TungsteniteMessage::Frame(_) => false,
        _ => true,
    }
}

impl CloseCode {
    /// The counterpart of a close code of `tungstenite`.
    pub fn from_tungstenite(code: TungsteniteCloseCode) -> (result: CloseCode)
        requires
            code_supported(code),
        ensures
            result == native_code(code),
            wire_code(result) == code,
    {
        proof {
            supported_code_round_trip(code);
        }
        match code {
            TungsteniteCloseCode::Normal => Self::Normal,
            TungsteniteCloseCode::Away => Self::Away,
            TungsteniteCloseCode::Protocol => Self::Protocol,
            TungsteniteCloseCode::Unsupported => Self::Unsupported,
            TungsteniteCloseCode::Status => Self::Status,
            TungsteniteCloseCode::Abnormal => Self::Abnormal,
            TungsteniteCloseCode::Invalid => Self::Invalid,
            TungsteniteCloseCode::Policy => Self::Policy,
            TungsteniteCloseCode::Size => Self::Size,
            TungsteniteCloseCode::Extension => Self::Extension,
            TungsteniteCloseCode::Error => Self::Error,
            TungsteniteCloseCode::Restart => Self::Restart,
            _ => Self::Again,
        }
    }
}

impl CloseFrame {
    /// The counterpart of a close frame of `tungstenite`.
    pub fn from_tungstenite<'t>(frame: TungsteniteCloseFrame<'t>) -> (result: CloseFrame)
        requires
            code_supported(frame.code),
        ensures
            result@ == (CloseFrameView {
                code: native_code(frame.code),
                reason: frame.reason@,
            }),
    {
        let reason = match frame.reason {
            Cow::Borrowed(reason) => reason.to_string(),
            Cow::Owned(reason) => reason,
        };
        CloseFrame { code: CloseCode::from_tungstenite(frame.code), reason }
    }
}

impl Message {
    /// The counterpart of a message of `tungstenite`.
    pub fn from_tungstenite(message: TungsteniteMessage) -> (result: Message)
        requires
            message_supported(message),
        ensures
            result@ == native_message(message),
    {
        match message {
            TungsteniteMessage::Text(text) => Self::Text(text),
            TungsteniteMessage::Binary(bytes) => Self::Binary(bytes),
            TungsteniteMessage::Ping(bytes) => Self::Ping(bytes),
            TungsteniteMessage::Pong(bytes) => Self::Pong(bytes),
            TungsteniteMessage::Close(Some(frame)) => Self::Close(
                Some(CloseFrame::from_tungstenite(frame)),
            ),
            _ => Self::Close(None),
        }
    }
}

/// A close code goes to the wire as the code of the same name.
pub proof fn code_keeps_its_name(code: CloseCode, wire: TungsteniteCloseCode)
    requires
        call_ensures(<TungsteniteCloseCode as From<CloseCode>>::from, (code,), wire),
    ensures
        wire == wire_code(code),
        wire is Normal <==> code is Normal,
        wire is Away <==> code is Away,
        wire is Protocol <==> code is Protocol,
        wire is Unsupported <==> code is Unsupported,
        wire is Status <==> code is Status,
        wire is Abnormal <==> code is Abnormal,
        wire is Invalid <==> code is Invalid,
        wire is Policy <==> code is Policy,
        wire is Size <==> code is Size,
        wire is Extension <==> code is Extension,
        wire is Error <==> code is Error,
        wire is Restart <==> code is Restart,
        wire is Again <==> code is Again,
{
}

/// A close code comes from the wire as the code of the same name.
pub proof fn wire_code_keeps_its_name(wire: TungsteniteCloseCode, code: CloseCode)
    requires
        code_supported(wire),
        call_ensures(CloseCode::from_tungstenite, (wire,), code),
    ensures
        code == native_code(wire),
        code is Normal <==> wire is Normal,
        code is Away <==> wire is Away,
        code is Protocol <==> wire is Protocol,
        code is Unsupported <==> wire is Unsupported,
        code is Status <==> wire is Status,
        code is Abnormal <==> wire is Abnormal,
        code is Invalid <==> wire is Invalid,
        code is Policy <==> wire is Policy,
        code is Size <==> wire is Size,
        code is Extension <==> wire is Extension,
        code is Error <==> wire is Error,
        code is Restart <==> wire is Restart,
        code is Again <==> wire is Again,
{
}

/// A close code of the wire has a counterpart unless it stands for a failure of TLS, for a
/// reserved, registered, private or invalid number.
pub proof fn supported_codes(code: &TungsteniteCloseCode, supported: bool)
    requires
        call_ensures(is_code_supported, (code,), supported),
    ensures
        supported == code_supported(*code),
        supported <==> match *code {
            TungsteniteCloseCode::Normal => true,
            TungsteniteCloseCode::Away => true,
            TungsteniteCloseCode::Protocol => true,
            TungsteniteCloseCode::Unsupported => true,
            TungsteniteCloseCode::Status => true,
            TungsteniteCloseCode::Abnormal => true,
            TungsteniteCloseCode::Invalid => true,
            TungsteniteCloseCode::Policy => true,
            TungsteniteCloseCode::Size => true,
            TungsteniteCloseCode::Extension => true,
            TungsteniteCloseCode::Error => true,
            TungsteniteCloseCode::Restart => true,
            TungsteniteCloseCode::Again => true,
            _ => false,
        },
{
}

/// A message of the wire has a counterpart unless it is a raw frame or a close message whose code
/// has none; and what has a counterpart can be taken from the wire.
pub proof fn supported_messages(message: TungsteniteMessage, supported: bool)
    requires
        call_ensures(is_message_supported, (&message,), supported),
    ensures
        match message {
            TungsteniteMessage::Close(Some(frame)) => supported == code_supported(frame.code),
            TungsteniteMessage::Frame(_) => !supported,
            _ => supported,
        },
        supported ==> call_requires(Message::from_tungstenite, (message,)),
{
}

/// A close frame goes to the wire with the counterpart of its code, and with its reason.
pub proof fn frame_keeps_its_content<'t>(frame: CloseFrame, wire: TungsteniteCloseFrame<'t>)
    requires
        call_ensures(<TungsteniteCloseFrame<'t> as From<CloseFrame>>::from, (frame,), wire),
    ensures
        wire.code == wire_code(frame.code),
        wire.reason@ == frame.reason@,
{
}

/// A close frame comes from the wire with the counterpart of its code, and with its reason.
pub proof fn wire_frame_keeps_its_content<'t>(wire: TungsteniteCloseFrame<'t>, frame: CloseFrame)
    requires
        code_supported(wire.code),
        call_ensures(CloseFrame::from_tungstenite, (wire,), frame),
    ensures
        wire_code(frame.code) == wire.code,
        frame.reason@ == wire.reason@,
{
    supported_code_round_trip(wire.code);
}

/// A message goes to the wire as a message of the same kind, with the same text, the same bytes,
/// or the counterpart of the same frame.
pub proof fn message_keeps_its_kind(message: Message, wire: TungsteniteMessage)
    requires
        call_ensures(<TungsteniteMessage as From<Message>>::from, (message,), wire),
    ensures
        match message {
            Message::Text(text) => wire matches TungsteniteMessage::Text(own) && own@ == text@,
            Message::Binary(bytes) => wire matches TungsteniteMessage::Binary(own) && own@
                == bytes@,
            Message::Ping(bytes) => wire matches TungsteniteMessage::Ping(own) && own@ == bytes@,
            Message::Pong(bytes) => wire matches TungsteniteMessage::Pong(own) && own@ == bytes@,
            Message::Close(None) => wire matches TungsteniteMessage::Close(None),
            Message::Close(Some(frame)) => wire matches TungsteniteMessage::Close(Some(own))
                && own.code == wire_code(frame.code) && own.reason@ == frame.reason@,
        },
{
}

/// A message comes from the wire as a message of the same kind, with the same text, the same
/// bytes, or the counterpart of the same frame.
pub proof fn wire_message_keeps_its_kind(wire: TungsteniteMessage, message: Message)
    requires
        message_supported(wire),
        call_ensures(Message::from_tungstenite, (wire,), message),
    ensures
        match wire {
            TungsteniteMessage::Text(text) => message matches Message::Text(own) && own@ == text@,
            TungsteniteMessage::Binary(bytes) => message matches Message::Binary(own) && own@
                == bytes@,
            TungsteniteMessage::Ping(bytes) => message matches Message::Ping(own) && own@ == bytes@,
            TungsteniteMessage::Pong(bytes) => message matches Message::Pong(own) && own@ == bytes@,
            TungsteniteMessage::Close(None) => message matches Message::Close(None),
            TungsteniteMessage::Close(Some(frame)) => message matches Message::Close(Some(own))
                && wire_code(own.code) == frame.code && own.reason@ == frame.reason@,
            TungsteniteMessage::Frame(_) => false,
        },
{
    if let TungsteniteMessage::Close(Some(frame)) = wire {
        supported_code_round_trip(frame.code);
    }
}

/// A message that goes to the wire can be taken from it, and is then the same as before.
pub proof fn message_survives_the_wire(message: Message, wire: TungsteniteMessage, back: Message)
    requires
        call_ensures(<TungsteniteMessage as From<Message>>::from, (message,), wire),
        call_ensures(Message::from_tungstenite, (wire,), back),
    ensures
        call_requires(Message::from_tungstenite, (wire,)),
        back@ == message@,
{
    message_round_trip(message);
}

} // verus!
