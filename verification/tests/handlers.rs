use ezsockets::config::WebsocketConfig;
use ezsockets::session::{call_handler, Action, Event, Handling, SessionActor, SessionExt, Step};
use ezsockets::{CloseFrame, Message};
use std::time::Duration;

struct Silent {
    id: u8,
}

impl SessionExt for Silent {
    type ID = u8;
    type Call = u32;
    type Error = String;

    fn id(&self) -> &u8 {
        &self.id
    }
}

struct Recorder {
    id: u8,
    seen: Vec<String>,
}

impl SessionExt for Recorder {
    type ID = u8;
    type Call = u32;
    type Error = String;

    fn id(&self) -> &u8 {
        &self.id
    }

    fn on_text(&mut self, text: String) -> Result<(), String> {
        self.seen.push(format!("text {}", text));
        Ok(())
    }

    fn on_binary(&mut self, bytes: Vec<u8>) -> Result<(), String> {
        self.seen.push(format!("binary {:?}", bytes));
        Err("no binary".to_string())
    }

    fn on_call(&mut self, call: u32) -> Result<(), String> {
        self.seen.push(format!("call {}", call));
        Ok(())
    }

    fn on_disconnect(&mut self, outcome: &Result<Option<CloseFrame>, String>) -> Result<(), String> {
        self.seen.push(format!("end {:?}", outcome));
        Err("late".to_string())
    }
}

fn actor() -> SessionActor<u8, String> {
    SessionActor::new(3, &WebsocketConfig::default(), Duration::ZERO)
}

#[test]
fn handlers_do_nothing_unless_written() {
    let mut silent = Silent { id: 3 };
    assert_eq!(*silent.id(), 3);
    assert_eq!(silent.on_text("a".to_string()), Ok(()));
    assert_eq!(silent.on_binary(vec![1]), Ok(()));
    assert_eq!(silent.on_call(1), Ok(()));
    assert_eq!(silent.on_disconnect(&Ok(None)), Ok(()));
}

#[test]
fn handlers_are_called_with_their_content() {
    let mut recorder = Recorder { id: 3, seen: vec![] };
    let handling = call_handler(&mut recorder, &actor(), Action::OnText { text: "a".to_string() });
    assert_eq!(handling, Handling::Done { result: Ok(()) });
    let handling = call_handler(&mut recorder, &actor(), Action::OnBinary { bytes: vec![1, 2] });
    assert_eq!(handling, Handling::Done { result: Err("no binary".to_string()) });
    let handling = call_handler(&mut recorder, &actor(), Action::OnCall { call: 8 });
    assert_eq!(handling, Handling::Done { result: Ok(()) });
    assert_eq!(recorder.seen, vec!["text a", "binary [1, 2]", "call 8"]);
    assert_eq!(*recorder.id(), 3);
}

#[test]
fn disconnect_handler_gets_the_outcome() {
    let mut recorder = Recorder { id: 3, seen: vec![] };
    let event = Event::ConnectionFailed { error: "reset".to_string() };
    let (actor, action) = match actor().step::<u32>(event) {
        Step::Next { actor, action } => (actor, action),
        Step::Finished { .. } => panic!("the session is over"),
    };
    let handling = call_handler(&mut recorder, &actor, action);
    assert_eq!(handling, Handling::Done { result: Err("late".to_string()) });
    assert_eq!(recorder.seen, vec!["end Err(\"reset\")"]);
}

#[test]
fn other_actions_are_for_no_handler() {
    let mut recorder = Recorder { id: 3, seen: vec![] };
    for action in [
        || Action::Wait,
        || Action::TakeQueued,
        || Action::Send { message: Message::Close(None) },
        || Action::ReportLatency { latency: Some(1) },
    ] {
        let handling = call_handler(&mut recorder, &actor(), action());
        assert_eq!(handling, Handling::NotForHandlers { action: action() });
    }
    assert!(recorder.seen.is_empty());
}
