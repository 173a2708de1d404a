use ezsockets::acceptor::{AcceptAction, AcceptEvent, AcceptLoop};

type Happening = AcceptEvent<&'static str, u16, char>;
type Doing = AcceptAction<&'static str, u16, char>;

fn next(state: AcceptLoop<u16>, event: Happening) -> (AcceptLoop<u16>, Doing) {
    assert!(state.is_expected(&event));
    state.step(event)
}

#[test]
fn connection_goes_to_the_server_with_its_address() {
    let (state, action): (AcceptLoop<u16>, Doing) = AcceptLoop::start();
    assert_eq!(action, AcceptAction::Accept);
    let (state, action) = next(state, AcceptEvent::Connected { stream: "s", address: 80 });
    assert_eq!(action, AcceptAction::Handshake { stream: "s" });
    let (state, action) = next(state, AcceptEvent::Established { connection: 'c' });
    assert_eq!(action, AcceptAction::Register { connection: 'c', address: 80 });
    let (state, action) = next(state, AcceptEvent::Registered);
    assert_eq!(action, AcceptAction::Accept);
    assert_eq!(state, AcceptLoop::Listening);
}

#[test]
fn failures_are_passed_over() {
    let (state, action) = next(AcceptLoop::Listening, AcceptEvent::ConnectFailed);
    assert_eq!((state, action), (AcceptLoop::Listening, AcceptAction::Accept));
    let (state, action) =
        next(AcceptLoop::Handshaking { address: 80 }, AcceptEvent::HandshakeFailed);
    assert_eq!((state, action), (AcceptLoop::Listening, AcceptAction::Accept));
}

#[test]
fn one_connection_at_a_time() {
    let state: AcceptLoop<u16> = AcceptLoop::Handshaking { address: 80 };
    let connected: Happening = AcceptEvent::Connected { stream: "s", address: 81 };
    let registered: Happening = AcceptEvent::Registered;
    assert!(!state.is_expected(&connected));
    assert!(!state.is_expected(&registered));
    let listening: AcceptLoop<u16> = AcceptLoop::Listening;
    let established: Happening = AcceptEvent::Established { connection: 'c' };
    assert!(listening.is_expected(&connected));
    assert!(!listening.is_expected(&established));
}

#[test]
fn all_established_are_registered() {
    let events: Vec<Happening> = vec![
        AcceptEvent::Connected { stream: "s", address: 80 },
        AcceptEvent::Established { connection: 'c' },
        AcceptEvent::Registered,
        AcceptEvent::ConnectFailed,
        AcceptEvent::Connected { stream: "t", address: 81 },
        AcceptEvent::HandshakeFailed,
        AcceptEvent::Connected { stream: "u", address: 82 },
        AcceptEvent::Established { connection: 'd' },
        AcceptEvent::Registered,
    ];
    let (mut state, _): (AcceptLoop<u16>, Doing) = AcceptLoop::start();
    let mut handshakes = Vec::new();
    let mut registrations = Vec::new();
    for event in events {
        let (after, action) = next(state, event);
        state = after;
        match action {
            AcceptAction::Handshake { stream } => handshakes.push(stream),
            AcceptAction::Register { connection, address } => {
                registrations.push((connection, address))
            }
            AcceptAction::Accept => {}
        }
    }
    assert_eq!(handshakes, vec!["s", "t", "u"]);
    assert_eq!(registrations, vec![('c', 80), ('d', 82)]);
}
