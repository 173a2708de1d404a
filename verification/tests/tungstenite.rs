use ezsockets::tungstenite::{is_code_supported, is_message_supported};
use ezsockets::{CloseCode, CloseFrame, Message};
use tokio_tungstenite::tungstenite::protocol::frame::coding::CloseCode as WireCode;
use tokio_tungstenite::tungstenite::protocol::frame::Frame;
use tokio_tungstenite::tungstenite::protocol::CloseFrame as WireFrame;
use tokio_tungstenite::tungstenite::Message as WireMessage;

const CODES: [(CloseCode, WireCode); 13] = [
    (CloseCode::Normal, WireCode::Normal),
    (CloseCode::Away, WireCode::Away),
    (CloseCode::Protocol, WireCode::Protocol),
    (CloseCode::Unsupported, WireCode::Unsupported),
    (CloseCode::Status, WireCode::Status),
    (CloseCode::Abnormal, WireCode::Abnormal),
    (CloseCode::Invalid, WireCode::Invalid),
    (CloseCode::Policy, WireCode::Policy),
    (CloseCode::Size, WireCode::Size),
    (CloseCode::Extension, WireCode::Extension),
    (CloseCode::Error, WireCode::Error),
    (CloseCode::Restart, WireCode::Restart),
    (CloseCode::Again, WireCode::Again),
];

#[test]
fn codes_round_trip() {
    for (code, wire) in CODES {
        assert_eq!(WireCode::from(code), wire);
        assert!(is_code_supported(&wire));
        assert_eq!(CloseCode::from_tungstenite(wire), code);
    }
}

#[test]
fn codes_have_their_numbers() {
    assert_eq!(u16::from(WireCode::from(CloseCode::Normal)), 1000);
    assert_eq!(u16::from(WireCode::from(CloseCode::Status)), 1005);
    assert_eq!(u16::from(WireCode::from(CloseCode::Again)), 1013);
}

#[test]
fn other_codes_are_unsupported() {
    for number in [0u16, 999, 1004, 1014, 1015, 1016, 2999, 3000, 4000, 4999, 5000] {
        assert!(!is_code_supported(&WireCode::from(number)));
    }
}

#[test]
fn frames_round_trip() {
    let frame = CloseFrame { code: CloseCode::Policy, reason: "no entry".to_string() };
    let wire = WireFrame::from(frame.clone());
    assert_eq!(wire, WireFrame { code: WireCode::Policy, reason: "no entry".into() });
    assert_eq!(CloseFrame::from_tungstenite(wire), frame);
    let borrowed = WireFrame { code: WireCode::Size, reason: std::borrow::Cow::Borrowed("big") };
    assert_eq!(
        CloseFrame::from_tungstenite(borrowed),
        CloseFrame { code: CloseCode::Size, reason: "big".to_string() }
    );
}

fn messages() -> Vec<(Message, WireMessage)> {
    let frame = CloseFrame { code: CloseCode::Away, reason: "bye".to_string() };
    let wire = WireFrame { code: WireCode::Away, reason: "bye".into() };
    vec![
        (Message::Text("hello".to_string()), WireMessage::Text("hello".to_string())),
        (Message::Binary(vec![1, 2]), WireMessage::Binary(vec![1, 2])),
        (Message::Ping(vec![3]), WireMessage::Ping(vec![3])),
        (Message::Pong(vec![]), WireMessage::Pong(vec![])),
        (Message::Close(Some(frame)), WireMessage::Close(Some(wire))),
        (Message::Close(None), WireMessage::Close(None)),
    ]
}

#[test]
fn messages_round_trip() {
    for (message, wire) in messages() {
        assert!(is_message_supported(&wire));
        assert_eq!(Message::from_tungstenite(wire), message);
    }
    for (message, wire) in messages() {
        assert_eq!(WireMessage::from(message), wire);
    }
}

#[test]
fn other_messages_are_unsupported() {
    let close = WireFrame { code: WireCode::Library(4000), reason: "".into() };
    assert!(!is_message_supported(&WireMessage::Close(Some(close))));
    assert!(!is_message_supported(&WireMessage::Frame(Frame::ping(vec![]))));
}
