use chrono::Utc;
use ezsockets::clock::{decode_timestamp, encode_timestamp, UtcTime};
use ezsockets::config::WebsocketConfig;
use ezsockets::session::{alive, Action, Disconnected, Event, Failure, SessionActor, Step};
use ezsockets::{CloseCode, CloseFrame, Message};
use std::time::Duration;

type Actor = SessionActor<u16, &'static str>;
type Happening = Event<u8, &'static str>;

const UTC: UtcTime = UtcTime { secs: 1_000, nanos: 500_000_999 };

fn secs(secs: u64) -> Duration {
    Duration::from_secs(secs)
}

fn start() -> Actor {
    SessionActor::new(7, &WebsocketConfig::default(), secs(100))
}

fn next(actor: Actor, event: Happening) -> (Actor, Action<u8>) {
    assert!(actor.accepts(&event));
    assert!(event.is_datable());
    match actor.step_at(event, UTC) {
        Step::Next { actor, action } => (actor, action),
        Step::Finished { .. } => panic!("the session is over"),
    }
}

fn finish(actor: Actor, event: Happening) -> Disconnected<u16, &'static str> {
    assert!(actor.accepts(&event));
    match actor.step_at(event, UTC) {
        Step::Next { .. } => panic!("the session goes on"),
        Step::Finished { disconnected } => disconnected,
    }
}

fn incoming(message: Message, now: u64) -> Happening {
    Event::Incoming { message, now: secs(now) }
}

fn sent() -> Happening {
    Event::Sent { result: Ok(()) }
}

fn handled() -> Happening {
    Event::Handled { outcome: Ok(()) }
}

fn failed(error: &'static str) -> Happening {
    Event::Handled { outcome: Err(Failure { error, text: format!("text of {}", error) }) }
}

fn text(text: &str) -> Message {
    Message::Text(text.to_string())
}

fn frame(code: CloseCode, reason: &str) -> CloseFrame {
    CloseFrame { code, reason: reason.to_string() }
}

fn send(message: Message) -> Action<u8> {
    Action::Send { message }
}

#[test]
fn heartbeat_sends_a_ping() {
    let (actor, action) = next(start(), Event::Tick { now: secs(100) });
    assert_eq!(action, send(Message::Ping(encode_timestamp(1_000_500_000))));
    let (actor, action) = next(actor, sent());
    assert_eq!(action, Action::Wait);
    assert_eq!(*actor.id(), 7);
    assert!(actor.outcome().is_none());
}

#[test]
fn ping_carries_the_time() {
    let before = Utc::now().timestamp_micros();
    let step: Step<u16, u8, &str> = start().step(Event::Tick { now: secs(101) });
    let after = Utc::now().timestamp_micros();
    match step {
        Step::Next { action: Action::Send { message: Message::Ping(payload) }, .. } => {
            let micros = decode_timestamp(&payload).unwrap();
            assert!(before <= micros && micros <= after);
        }
        other => panic!("no ping: {:?}", other),
    }
}

#[test]
fn silent_peer_times_out() {
    let (actor, action) = next(start(), Event::Tick { now: secs(110) });
    assert!(matches!(action, Action::Send { message: Message::Ping(_) }));
    let (actor, _) = next(actor, sent());
    let late = secs(110) + Duration::from_nanos(1);
    let (actor, action) = next(actor, Event::Tick { now: late });
    let reason = "client didn't respond to Ping frame";
    assert_eq!(action, send(Message::Close(Some(frame(CloseCode::Normal, reason)))));
    let (actor, action) = next(actor, sent());
    assert_eq!(action, Action::OnDisconnect);
    assert_eq!(actor.outcome(), Some(&Ok(None)));
    assert_eq!(finish(actor, handled()), Disconnected { id: 7, result: Ok(None) });
}

#[test]
fn only_pongs_keep_a_session_alive() {
    let (actor, _) = next(start(), incoming(text("busy"), 109));
    let (actor, _) = next(actor, handled());
    let (actor, _) = next(actor, incoming(Message::Ping(vec![]), 110));
    let (_, action) = next(actor, Event::Tick { now: secs(111) });
    assert!(matches!(action, Action::Send { message: Message::Close(_) }));

    let (actor, _) = next(start(), incoming(Message::Pong(vec![]), 109));
    let (actor, action) = next(actor, Event::Tick { now: secs(119) });
    assert!(matches!(action, Action::Send { message: Message::Ping(_) }));
    let (actor, _) = next(actor, sent());
    let (_, action) = next(actor, Event::Tick { now: secs(120) });
    assert!(matches!(action, Action::Send { message: Message::Close(_) }));
}

#[test]
fn clock_before_the_last_pong() {
    let (actor, _) = next(start(), incoming(Message::Pong(vec![]), 109));
    let (_, action) = next(actor, Event::Tick { now: secs(50) });
    assert!(matches!(action, Action::Send { message: Message::Ping(_) }));
}

#[test]
fn timeout_without_end() {
    let config = WebsocketConfig { timeout: Duration::MAX, ..WebsocketConfig::default() };
    let actor: Actor = SessionActor::new(1, &config, secs(0));
    let (_, action) = next(actor, Event::Tick { now: Duration::MAX });
    assert!(matches!(action, Action::Send { message: Message::Ping(_) }));
}

#[test]
fn pong_shows_latency() {
    let pong = Message::Pong(encode_timestamp(1_000_430_000));
    let (_, action) = next(start(), incoming(pong, 101));
    assert_eq!(action, Action::ReportLatency { latency: Some(70) });
    let (_, action) = next(start(), incoming(Message::Pong(vec![1, 2, 3]), 101));
    assert_eq!(action, Action::ReportLatency { latency: None });
}

#[test]
fn pong_shows_latency_now() {
    let sent = Utc::now().timestamp_micros() - 5_000_000;
    let pong = Message::Pong(encode_timestamp(sent));
    let step: Step<u16, u8, &str> = start().step(incoming(pong, 101));
    match step {
        Step::Next { action: Action::ReportLatency { latency: Some(millis) }, .. } => {
            assert!(5_000 <= millis && millis < 20_000);
        }
        other => panic!("no latency: {:?}", other),
    }
}

#[test]
fn pong_out_of_range() {
    assert!(!incoming(Message::Pong(encode_timestamp(i64::MAX)), 1).is_datable());
    assert!(incoming(Message::Ping(encode_timestamp(i64::MAX)), 1).is_datable());
}

#[test]
fn messages_go_to_their_handlers() {
    let (actor, action) = next(start(), incoming(text("hello"), 101));
    assert_eq!(action, Action::OnText { text: "hello".to_string() });
    let (actor, action) = next(actor, handled());
    assert_eq!(action, Action::Wait);
    let (actor, action) = next(actor, incoming(Message::Binary(vec![1, 2]), 102));
    assert_eq!(action, Action::OnBinary { bytes: vec![1, 2] });
    let (actor, _) = next(actor, handled());
    let (actor, action) = next(actor, Event::Call { call: 9 });
    assert_eq!(action, Action::OnCall { call: 9 });
    let (actor, action) = next(actor, handled());
    assert_eq!(action, Action::Wait);
    let (_, action) = next(actor, incoming(Message::Ping(vec![5]), 103));
    assert_eq!(action, Action::Wait);
}

#[test]
fn messages_of_the_program_are_sent() {
    let (actor, action) = next(start(), Event::Outgoing { message: text("one") });
    assert_eq!(action, send(text("one")));
    let (actor, action) = next(actor, sent());
    assert_eq!(action, Action::Wait);
    let (_, action) = next(actor, Event::Outgoing { message: Message::Binary(vec![2]) });
    assert_eq!(action, send(Message::Binary(vec![2])));
}

#[test]
fn close_of_the_program_ends_the_session() {
    for close in [None, Some(frame(CloseCode::Away, "bye"))] {
        let message = Message::Close(close.clone());
        let (actor, action) = next(start(), Event::Outgoing { message });
        assert_eq!(action, send(Message::Close(close.clone())));
        let (actor, action) = next(actor, sent());
        assert_eq!(action, Action::OnDisconnect);
        assert_eq!(finish(actor, handled()).result, Ok(close));
    }
}

#[test]
fn close_of_the_peer_ends_the_session() {
    for close in [None, Some(frame(CloseCode::Restart, "soon back"))] {
        let (actor, action) = next(start(), incoming(Message::Close(close.clone()), 101));
        assert_eq!(action, Action::OnDisconnect);
        assert_eq!(actor.outcome(), Some(&Ok(close.clone())));
        assert_eq!(finish(actor, handled()).result, Ok(close));
    }
}

#[test]
fn end_of_the_connection() {
    let (actor, action) = next(start(), Event::ConnectionEnded);
    assert_eq!(action, Action::OnDisconnect);
    assert_eq!(finish(actor, handled()).result, Ok(None));
}

#[test]
fn failure_of_the_connection() {
    let (actor, action) = next(start(), Event::ConnectionFailed { error: "reset" });
    assert_eq!(action, Action::OnDisconnect);
    assert_eq!(actor.outcome(), Some(&Err("reset")));
    assert_eq!(finish(actor, handled()).result, Err("reset"));
}

#[test]
fn failed_handler_drains_the_queue() {
    let (actor, _) = next(start(), incoming(text("boom"), 101));
    let (actor, action) = next(actor, failed("oops"));
    assert_eq!(action, Action::TakeQueued);
    let (actor, action) = next(actor, Event::Queued { taken: Some(text("one")) });
    assert_eq!(action, send(text("one")));
    let (actor, action) = next(actor, sent());
    assert_eq!(action, Action::TakeQueued);
    let (actor, action) = next(actor, Event::Queued { taken: Some(Message::Close(None)) });
    assert_eq!(action, send(Message::Close(None)));
    let (actor, _) = next(actor, sent());
    let (actor, action) = next(actor, Event::Queued { taken: None });
    assert_eq!(action, send(Message::Close(Some(frame(CloseCode::Error, "text of oops")))));
    let (actor, action) = next(actor, sent());
    assert_eq!(action, Action::OnDisconnect);
    assert_eq!(actor.outcome(), Some(&Err("oops")));
    assert_eq!(finish(actor, handled()), Disconnected { id: 7, result: Err("oops") });
}

#[test]
fn failed_call_ends_the_session_at_once() {
    let (actor, _) = next(start(), Event::Call { call: 1 });
    let (actor, action) = next(actor, failed("bad call"));
    assert_eq!(action, Action::OnDisconnect);
    assert_eq!(finish(actor, handled()).result, Err("bad call"));
}

#[test]
fn failed_disconnect_handler_has_the_last_word() {
    let (actor, _) = next(start(), Event::ConnectionEnded);
    assert_eq!(finish(actor, failed("late")).result, Err("late"));
    let (actor, _) = next(start(), Event::ConnectionFailed { error: "reset" });
    assert_eq!(finish(actor, failed("late")).result, Err("late"));
}

#[test]
fn failed_sends_end_the_session() {
    let lost = || Event::Sent { result: Err("lost") };
    let (pinging, _) = next(start(), Event::Tick { now: secs(101) });
    let (closing, _) = next(start(), Event::Tick { now: secs(200) });
    let (sending, _) = next(start(), Event::Outgoing { message: Message::Close(None) });
    let (draining, _) = next(next(start(), incoming(text("boom"), 101)).0, failed("oops"));
    let (failing, _) = next(draining, Event::Queued { taken: None });
    let (draining, _) = next(next(start(), incoming(text("boom"), 101)).0, failed("oops"));
    let (flushing, _) = next(draining, Event::Queued { taken: Some(text("one")) });
    for actor in [pinging, closing, sending, failing, flushing] {
        let (actor, action) = next(actor, lost());
        assert_eq!(action, Action::OnDisconnect);
        assert_eq!(finish(actor, handled()).result, Err("lost"));
    }
}

#[test]
fn results_only_where_they_are_awaited() {
    let actor = start();
    assert!(actor.accepts::<u8>(&Event::Tick { now: secs(1) }));
    assert!(!actor.accepts::<u8>(&sent()));
    assert!(!actor.accepts::<u8>(&handled()));
    assert!(!actor.accepts::<u8>(&Event::Queued { taken: None }));
    let (actor, _) = next(actor, Event::Tick { now: secs(100) });
    assert!(actor.accepts::<u8>(&sent()));
    assert!(!actor.accepts::<u8>(&Event::Tick { now: secs(1) }));
    assert!(!actor.accepts::<u8>(&handled()));
    let (actor, _) = next(start(), Event::ConnectionEnded);
    assert!(actor.accepts::<u8>(&handled()));
    assert!(!actor.accepts::<u8>(&Event::ConnectionEnded));
}

#[test]
fn alive_while_both_queues_are_open() {
    assert!(alive(false, false));
    assert!(!alive(true, false));
    assert!(!alive(false, true));
    assert!(!alive(true, true));
}

#[test]
fn only_pings_and_pongs_with_a_timestamp_depend_on_the_time() {
    let later = UtcTime { secs: 2_000, nanos: 0 };
    for (event, depends) in [
        (|| Event::Tick { now: secs(101) }, true),
        (|| Event::Tick { now: secs(200) }, false),
        (|| incoming(Message::Pong(vec![0; 8]), 101), true),
        (|| incoming(Message::Pong(vec![0; 7]), 101), false),
        (|| incoming(text("hello"), 101), false),
    ] as [(fn() -> Happening, bool); 5]
    {
        let (_, now) = next(start(), event());
        let then = match start().step_at(event(), later) {
            Step::Next { action, .. } => action,
            Step::Finished { .. } => panic!("the session is over"),
        };
        assert_eq!(now != then, depends);
    }
}

#[test]
fn pings_do_not_disturb_the_messages_of_the_program() {
    let mut data = vec![];
    let mut actor = start();
    let events: [fn() -> Happening; 5] = [
        || Event::Outgoing { message: text("one") },
        || Event::Tick { now: secs(101) },
        || Event::Outgoing { message: Message::Binary(vec![2]) },
        || Event::Tick { now: secs(102) },
        || Event::Outgoing { message: text("three") },
    ];
    for event in events {
        let (sending, action) = next(actor, event());
        match action {
            Action::Send { message: Message::Ping(_) } => {}
            Action::Send { message } => data.push(message),
            other => panic!("nothing sent: {:?}", other),
        }
        actor = next(sending, sent()).0;
    }
    assert_eq!(data, vec![text("one"), Message::Binary(vec![2]), text("three")]);
}

#[test]
fn outcomes_have_their_cause() {
    let close = Some(frame(CloseCode::Away, "bye"));
    let causes: Vec<(Vec<Happening>, Result<Option<CloseFrame>, &'static str>)> = vec![
        (vec![incoming(Message::Close(close.clone()), 103)], Ok(close.clone())),
        (vec![Event::Outgoing { message: Message::Close(close.clone()) }, sent()], Ok(close)),
        (vec![Event::ConnectionEnded], Ok(None)),
        (vec![Event::Tick { now: secs(200) }, sent()], Ok(None)),
        (vec![Event::ConnectionFailed { error: "reset" }], Err("reset")),
        (vec![Event::Tick { now: secs(103) }, Event::Sent { result: Err("full") }], Err("full")),
        (vec![Event::Call { call: 3 }, failed("call")], Err("call")),
        (
            vec![
                incoming(text("a"), 103),
                failed("text"),
                Event::Queued { taken: Some(text("b")) },
                sent(),
                Event::Queued { taken: None },
                sent(),
            ],
            Err("text"),
        ),
    ];
    for (events, outcome) in causes {
        let mut actor = start();
        for event in vec![
            Event::Tick { now: secs(101) },
            sent(),
            incoming(Message::Pong(Vec::new()), 102),
            incoming(text("hello"), 102),
            handled(),
            Event::Call { call: 1 },
            handled(),
            Event::Outgoing { message: text("there") },
            sent(),
        ] {
            actor = next(actor, event).0;
            assert!(actor.outcome().is_none());
        }
        for event in events {
            assert!(actor.outcome().is_none());
            actor = next(actor, event).0;
        }
        assert_eq!(actor.outcome(), Some(&outcome));
    }
}
