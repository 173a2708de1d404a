use ezsockets::server::{ServerAction, ServerActor, ServerEvent};
use ezsockets::session::Disconnected;
use ezsockets::{CloseCode, CloseFrame};

type Actor = ServerActor<u16, &'static str>;
type Happening = ServerEvent<&'static str, u16, char, &'static str>;
type Doing = ServerAction<&'static str, u16, char, &'static str>;

fn next(actor: Actor, event: Happening) -> (Actor, Doing) {
    assert!(actor.is_expected(&event));
    actor.step(event)
}

#[test]
fn connection_is_answered() {
    let (actor, action) = next(ServerActor::new(), ServerEvent::Connection { connection: "c" });
    assert_eq!(action, ServerAction::OnConnect { connection: "c" });
    let (actor, action) = next(actor, ServerEvent::Accepted { result: Ok(42) });
    assert_eq!(action, ServerAction::Answer { id: 42 });
    assert_eq!(actor, ServerActor::Waiting);
}

#[test]
fn refused_connection_gets_no_answer() {
    let (actor, _) = next(ServerActor::new(), ServerEvent::Connection { connection: "c" });
    let (actor, action) = next(actor, ServerEvent::Accepted { result: Err("no") });
    assert_eq!(action, ServerAction::ReportError { error: "no" });
    assert_eq!(actor, ServerActor::Waiting);
}

#[test]
fn ends_of_sessions_are_reported() {
    let frame = CloseFrame { code: CloseCode::Normal, reason: "done".to_string() };
    for result in [Ok(Some(frame)), Ok(None), Err("reset")] {
        let disconnected = Disconnected { id: 5, result: result.clone() };
        let (actor, action) =
            next(ServerActor::new(), ServerEvent::Disconnection { disconnected });
        assert_eq!(action, ServerAction::OnDisconnect);
        assert_eq!(actor.ended(), Some(&5));
        let (actor, action) = next(actor, ServerEvent::Handled { outcome: Ok(()) });
        assert_eq!(action, ServerAction::ReportEnd { id: 5, result });
        assert_eq!(actor, ServerActor::Waiting);
        assert_eq!(actor.ended(), None);
    }
}

#[test]
fn failed_disconnect_handler_is_reported() {
    let disconnected = Disconnected { id: 5, result: Ok(None) };
    let (actor, _) = next(ServerActor::new(), ServerEvent::Disconnection { disconnected });
    let (actor, action) = next(actor, ServerEvent::Handled { outcome: Err("bad") });
    assert_eq!(action, ServerAction::ReportError { error: "bad" });
    assert_eq!(actor, ServerActor::Waiting);
}

#[test]
fn calls_are_handled() {
    let (actor, action) = next(ServerActor::new(), ServerEvent::Call { call: 'x' });
    assert_eq!(action, ServerAction::OnCall { call: 'x' });
    let (actor, action) = next(actor, ServerEvent::Handled { outcome: Ok(()) });
    assert_eq!(action, ServerAction::Wait);
    let (actor, _) = next(actor, ServerEvent::Call { call: 'y' });
    let (actor, action) = next(actor, ServerEvent::Handled { outcome: Err("bad") });
    assert_eq!(action, ServerAction::ReportCallError { error: "bad" });
    assert_eq!(actor, ServerActor::Waiting);
}

#[test]
fn server_waits_for_its_handlers() {
    let (actor, _) = next(ServerActor::new(), ServerEvent::Connection { connection: "c" });
    let call: Happening = ServerEvent::Call { call: 'x' };
    let handled: Happening = ServerEvent::Handled { outcome: Ok(()) };
    let accepted: Happening = ServerEvent::Accepted { result: Ok(1) };
    assert!(!actor.is_expected(&call));
    assert!(!actor.is_expected(&handled));
    assert!(actor.is_expected(&accepted));
    assert!(!Actor::new().is_expected(&accepted));
    assert!(!Actor::new().is_expected(&handled));
}
