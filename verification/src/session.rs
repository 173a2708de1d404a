//! One session: the life of a connection, from its first ping to the report of its end.
//!
//! [`SessionActor`] decides; it performs nothing. It is given an [`Event`], and answers with an
//! [`Action`] to perform. An action that has a result, such as a send, is followed by the event
//! that brings the result. While the actor waits, six things can happen: the heartbeat, a message
//! or a call that the program queued, a message from the peer, a failure of the connection, or
//! its end.
use crate::clock::{current_time, encode_timestamp, is_payload_datable, latency_at, UtcTime};
use crate::config::WebsocketConfig;
use crate::session::model::{PhaseView, SessionView, StepView};
use crate::socket::{CloseCode, CloseFrame, Message, MessageView};
use std::time::Duration;
use vstd::prelude::*;

pub mod answers;
pub mod laws;
pub mod model;

verus! {

/// A handler's failure: the error, and the text that it is displayed as.
#[derive(Debug, PartialEq, Eq)]
pub struct Failure<X> {
    /// The error.
    pub error: X,
    /// The error as text.
    pub text: String,
}

/// What happens to a session. Times are counted from one moment, the same for all events of a
/// session, on a clock that never goes back.
#[derive(Debug, PartialEq, Eq)]
pub enum Event<C, X> {
    /// The heartbeat.
    Tick { now: Duration },
    /// The program has queued a message for the peer.
    Outgoing { message: Message },
    /// The program has queued a call for the session.
    Call { call: C },
    /// The peer has sent a message.
    Incoming { message: Message, now: Duration },
    /// The connection has failed.
    ConnectionFailed { error: X },
    /// The connection has ended.
    ConnectionEnded,
    /// A message has been sent, or could not be.
    Sent { result: Result<(), X> },
    /// A handler is done.
    Handled { outcome: Result<(), Failure<X>> },
    /// What the queue of messages for the peer held, when it was looked into.
    Queued { taken: Option<Message> },
}

/// What is to be done for a session.
#[derive(Debug, PartialEq, Eq)]
pub enum Action<C> {
    /// Wait for the next event.
    Wait,
    /// Report the latency in milliseconds that a pong shows, if it shows one, and wait for the
    /// next event.
    ReportLatency { latency: Option<i64> },
    /// Send a message to the peer.
    Send { message: Message },
    /// Call the handler of text messages.
    OnText { text: String },
    /// Call the handler of binary messages.
    OnBinary { bytes: Vec<u8> },
    /// Call the handler of calls.
    OnCall { call: C },
    /// Call the handler of the disconnection, with the outcome of the session.
    OnDisconnect,
    /// Take the next message from the queue of messages for the peer, without waiting for one.
    TakeQueued,
}

/// The report of a session's end.
#[derive(Debug, PartialEq, Eq)]
pub struct Disconnected<I, X> {
    /// The session's ID.
    pub id: I,
    /// The close frame, if one ended the session, or the error that did.
    pub result: Result<Option<CloseFrame>, X>,
}

/// What follows an event: an action, after which the session goes on, or the report of its end.
#[derive(Debug)]
pub enum Step<I, C, X> {
    /// The session goes on.
    Next { actor: SessionActor<I, X>, action: Action<C> },
    /// The session is over.
    Finished { disconnected: Disconnected<I, X> },
}

/// What a session is in the middle of.
#[derive(Debug)]
enum Phase<X> {
    Waiting,
    Pinging,
    TimingOut,
    Sending { close: Option<Option<CloseFrame>> },
    Calling,
    Handling,
    Draining { failure: Failure<X> },
    Flushing { failure: Failure<X> },
    Failing { error: X },
    Disconnecting { result: Result<Option<CloseFrame>, X> },
}

/// A session.
#[derive(Debug)]
pub struct SessionActor<I, X> {
    id: I,
    timeout: Duration,
    last_alive: Duration,
    phase: Phase<X>,
}

impl<X> Phase<X> {
    closed spec fn view(&self) -> PhaseView<X> {
        match *self {
            Phase::Waiting => PhaseView::Waiting,
            Phase::Pinging => PhaseView::Pinging,
            Phase::TimingOut => PhaseView::TimingOut,
            Phase::Sending { close } => PhaseView::Sending {
                close: match close {
                    Some(frame) => Some(crate::socket::frame_view(frame)),
                    None => None,
                },
            },
            Phase::Calling => PhaseView::Calling,
            Phase::Handling => PhaseView::Handling,
            Phase::Draining { failure } => PhaseView::Draining { failure: failure@ },
            Phase::Flushing { failure } => PhaseView::Flushing { failure: failure@ },
            Phase::Failing { error } => PhaseView::Failing { error },
            Phase::Disconnecting { result } => PhaseView::Disconnecting {
                result: self::model::outcome_view(result),
            },
        }
    }
}

impl<I, X> View for SessionActor<I, X> {
    type V = SessionView<I, X>;

    closed spec fn view(&self) -> SessionView<I, X> {
        SessionView {
            id: self.id,
            timeout: crate::config::duration_nanos(self.timeout),
            last_alive: crate::config::duration_nanos(self.last_alive),
            phase: self.phase.view(),
        }
    }
}

impl<I, C, X> View for Step<I, C, X> {
    type V = StepView<I, C, X>;

    open spec fn view(&self) -> StepView<I, C, X> {
        match *self {
            Step::Next { actor, action } => StepView::Next { state: actor@, action: action@ },
            Step::Finished { disconnected } => StepView::Finished {
                id: disconnected.id,
                result: self::model::outcome_view(disconnected.result),
            },
        }
    }
}

impl<I, X> SessionActor<I, X> {
    /// A session that starts now: it waits, and counts as alive at its start.
    pub fn new(id: I, config: &WebsocketConfig, now: Duration) -> (actor: Self)
        ensures
            actor@ == SessionView::<I, X>::initial(
                id,
                crate::config::duration_nanos(config.timeout),
                crate::config::duration_nanos(now),
            ),
            actor@.id == id,
            actor@.timeout == crate::config::duration_nanos(config.timeout),
            actor@.last_alive == crate::config::duration_nanos(now),
            actor@.phase is Waiting,
    {
        SessionActor { id, timeout: config.timeout, last_alive: now, phase: Phase::Waiting }
    }

    /// The session's ID.
    pub fn id(&self) -> (id: &I)
        ensures
            *id == self@.id,
    {
        &self.id
    }

    /// The outcome of the session, once it has one: what the handler of the disconnection is
    /// called with.
    pub fn outcome(&self) -> (outcome: Option<&Result<Option<CloseFrame>, X>>)
        ensures
            outcome is Some <==> self@.phase is Disconnecting,
            outcome matches Some(result) ==> self@.phase == (PhaseView::Disconnecting {
                result: self::model::outcome_view(*result),
            }),
    {
        match &self.phase {
            Phase::Disconnecting { result } => Some(result),
            _ => None,
        }
    }

    /// Whether an event is one that can happen now.
    pub fn accepts<C>(&self, event: &Event<C, X>) -> (accepted: bool)
        ensures
            forall|utc: UtcTime| accepted == self@.phase.accepts(#[trigger] event.at(utc)),
    {
        match event {
            Event::Sent { .. } => match &self.phase {
                Phase::Pinging
                | Phase::TimingOut
                | Phase::Sending { .. }
                | Phase::Flushing { .. }
                | Phase::Failing { .. } => true,
                _ => false,
            },
            Event::Handled { .. } => match &self.phase {
                Phase::Calling | Phase::Handling | Phase::Disconnecting { .. } => true,
                _ => false,
            },
            Event::Queued { .. } => match &self.phase {
                Phase::Draining { .. } => true,
                _ => false,
            },
            _ => match &self.phase {
                Phase::Waiting => true,
                _ => false,
            },
        }
    }

    fn then_do<C>(self, phase: Phase<X>, action: Action<C>) -> (step: Step<I, C, X>)
        ensures
            step@ == self@.then_do(phase.view(), action@),
    {
        Step::Next { actor: SessionActor { phase, ..self }, action }
    }

    fn then_wait<C>(self) -> (step: Step<I, C, X>)
        ensures
            step@ == self@.then_wait::<C>(),
    {
        self.then_do(Phase::Waiting, Action::Wait)
    }

    fn then_disconnect<C>(self, result: Result<Option<CloseFrame>, X>) -> (step: Step<I, C, X>)
        ensures
            step@ == self@.then_disconnect::<C>(self::model::outcome_view(result)),
    {
        self.then_do(Phase::Disconnecting { result }, Action::OnDisconnect)
    }

    fn timed_out(&self, now: Duration) -> (timed_out: bool)
        ensures
            timed_out == self@.timed_out(crate::config::duration_nanos(now)),
    {
        let elapsed: u128 = now.as_nanos().saturating_sub(self.last_alive.as_nanos());
        elapsed > self.timeout.as_nanos()
    }

    fn reads_clock<C>(&self, event: &Event<C, X>) -> (reads: bool)
        ensures
            forall|utc: UtcTime| reads == self@.reads_clock(#[trigger] event.at(utc)),
    {
        match event {
            Event::Tick { now } => !self.timed_out(*now),
            Event::Incoming { message: Message::Pong(payload), .. } => payload.len() == 8,
            _ => false,
        }
    }

    fn handle_timeout_ping<C>(self, now: Duration, utc: UtcTime) -> (step: Step<I, C, X>)
        requires
            utc.valid(),
        ensures
            step@ == self@.on_tick::<C>(crate::config::duration_nanos(now), utc),
    {
        if self.timed_out(now) {
            let frame = CloseFrame {
                code: CloseCode::Normal,
                reason: "client didn't respond to Ping frame".to_string(),
            };
            return self.then_do(
                Phase::TimingOut,
                Action::Send { message: Message::Close(Some(frame)) },
            );
        }
        let payload = encode_timestamp(utc.timestamp_micros());
        self.then_do(Phase::Pinging, Action::Send { message: Message::Ping(payload) })
    }

    fn handle_send_message<C>(self, message: Message) -> (step: Step<I, C, X>)
        ensures
            step@ == self@.on_outgoing::<C>(message@),
    {
        let close = if let Message::Close(frame) = &message {
            Some(clone_frame(frame))
        } else {
            None
        };
        self.then_do(Phase::Sending { close }, Action::Send { message })
    }

    fn handle_recv_message<C>(self, message: Message, now: Duration, utc: UtcTime) -> (step: Step<
        I,
        C,
        X,
    >)
        requires
            utc.valid(),
            message@ matches MessageView::Pong(payload) ==> crate::clock::payload_datable(payload),
        ensures
            step@ == self@.on_incoming::<C>(message@, crate::config::duration_nanos(now), utc),
    {
        match message {
            Message::Text(text) => self.then_do(Phase::Handling, Action::OnText { text }),
            Message::Binary(bytes) => self.then_do(Phase::Handling, Action::OnBinary { bytes }),
            Message::Ping(_) => self.then_wait(),
            Message::Pong(payload) => {
                let latency = latency_at(utc, &payload);
                let actor = SessionActor { last_alive: now, ..self };
                actor.then_do(Phase::Waiting, Action::ReportLatency { latency })
            },
            Message::Close(frame) => self.then_disconnect(Ok(frame)),
        }
    }

    fn handle_sent<C>(self) -> (step: Step<I, C, X>)
        ensures
            step@ == self@.on_sent::<C>(),
    {
        let SessionActor { id, timeout, last_alive, phase } = self;
        let actor = SessionActor { id, timeout, last_alive, phase: Phase::Waiting };
        match phase {
            Phase::TimingOut => actor.then_disconnect(Ok(None)),
            Phase::Sending { close: Some(frame) } => actor.then_disconnect(Ok(frame)),
            Phase::Flushing { failure } => actor.then_do(
                Phase::Draining { failure },
                Action::TakeQueued,
            ),
            Phase::Failing { error } => actor.then_disconnect(Err(error)),
            _ => actor.then_wait(),
        }
    }

    fn handle_handled<C>(self) -> (step: Step<I, C, X>)
        ensures
            step@ == self@.on_handled::<C>(),
    {
        let SessionActor { id, timeout, last_alive, phase } = self;
        match phase {
            Phase::Disconnecting { result } => Step::Finished {
                disconnected: Disconnected { id, result },
            },
            phase => {
                let actor = SessionActor { id, timeout, last_alive, phase };
                actor.then_wait()
            },
        }
    }

    fn handle_failure<C>(self, failure: Failure<X>) -> (step: Step<I, C, X>)
        ensures
            step@ == self@.on_failure::<C>(failure@),
    {
        match &self.phase {
            Phase::Handling => self.then_do(Phase::Draining { failure }, Action::TakeQueued),
            Phase::Disconnecting { .. } => Step::Finished {
                disconnected: Disconnected { id: self.id, result: Err(failure.error) },
            },
            _ => self.then_disconnect(Err(failure.error)),
        }
    }

    fn handle_queued<C>(self, message: Option<Message>) -> (step: Step<I, C, X>)
        requires
            self@.phase is Draining,
        ensures
            step@ == self@.on_queued::<C>(
                match message {
                    Some(message) => Some(message@),
                    None => None,
                },
            ),
    {
        let SessionActor { id, timeout, last_alive, phase } = self;
        let actor = SessionActor { id, timeout, last_alive, phase: Phase::Waiting };
        match phase {
            Phase::Draining { failure } => match message {
                Some(message) => actor.then_do(
                    Phase::Flushing { failure },
                    Action::Send { message },
                ),
                None => {
                    let frame = CloseFrame { code: CloseCode::Error, reason: failure.text };
                    actor.then_do(
                        Phase::Failing { error: failure.error },
                        Action::Send { message: Message::Close(Some(frame)) },
                    )
                },
            },
            _ => actor.then_wait(),
        }
    }

    /// What follows an event, where the wall clock has the given time.
    pub fn step_at<C>(self, event: Event<C, X>, utc: UtcTime) -> (step: Step<I, C, X>)
        requires
            self@.phase.accepts(event.at(utc)),
            event.at(utc).datable(),
            utc.valid(),
        ensures
            step@ == self@.transition(event.at(utc)),
    {
        match event {
            Event::Tick { now } => self.handle_timeout_ping(now, utc),
            Event::Outgoing { message } => self.handle_send_message(message),
            Event::Call { call } => self.then_do(Phase::Calling, Action::OnCall { call }),
            Event::Incoming { message, now } => self.handle_recv_message(message, now, utc),
            Event::ConnectionFailed { error } => self.then_disconnect(Err(error)),
            Event::ConnectionEnded => self.then_disconnect(Ok(None)),
            Event::Sent { result: Ok(_) } => self.handle_sent(),
            Event::Sent { result: Err(error) } => self.then_disconnect(Err(error)),
            Event::Handled { outcome: Ok(_) } => self.handle_handled(),
            Event::Handled { outcome: Err(failure) } => self.handle_failure(failure),
            Event::Queued { taken } => self.handle_queued(taken),
        }
    }

    /// What follows an event. The wall clock is read where a ping is sent, which carries the time,
    /// and where a pong brings a timestamp back.
    pub fn step<C>(self, event: Event<C, X>) -> (step: Step<I, C, X>)
        requires
            forall|utc: UtcTime| self@.phase.accepts(#[trigger] event.at(utc)),
            forall|utc: UtcTime| (#[trigger] event.at(utc)).datable(),
        ensures
            exists|utc: UtcTime|
                {
                    &&& utc.valid()
                    &&& utc.secs >= 0
                    &&& self@.reads_clock(event.at(utc)) ==> crate::clock::is_clock_reading(utc)
                    &&& step@ == self@.transition(#[trigger] event.at(utc))
                },
    {
        let utc = if self.reads_clock(&event) {
            current_time()
        } else {
            UtcTime { secs: 0, nanos: 0 }
        };
        self.step_at(event, utc)
    }
}

impl<C, X> Event<C, X> {
    /// Whether the event is no pong whose payload names a date out of range.
    pub fn is_datable(&self) -> (datable: bool)
        ensures
            forall|utc: UtcTime| datable == #[trigger] self.at(utc).datable(),
    {
        match self {
            Event::Incoming { message: Message::Pong(payload), .. } => is_payload_datable(payload),
            _ => true,
        }
    }
}

/// The handlers of a session, each of which returns when it is done. A handler that is not written
/// does nothing and succeeds.
pub trait SessionExt: Sized {
    /// Custom identification of the session, usually a number or a string.
    type ID;

    /// Type of the custom call: what is passed to `on_call`.
    type Call;

    /// Type of the errors of the handlers.
    type Error;

    /// Returns the ID of the session.
    fn id(&self) -> &Self::ID;

    /// Handler for text messages from the peer.
    fn on_text(&mut self, text: String) -> (result: Result<(), Self::Error>)
        default_ensures
            result == Ok::<(), Self::Error>(()),
            *final(self) == *old(self),
    {
        Ok(())
    }

    /// Handler for binary messages from the peer.
    fn on_binary(&mut self, bytes: Vec<u8>) -> (result: Result<(), Self::Error>)
        default_ensures
            result == Ok::<(), Self::Error>(()),
            *final(self) == *old(self),
    {
        Ok(())
    }

    /// Handler for custom calls from other parts of the program.
    fn on_call(&mut self, call: Self::Call) -> (result: Result<(), Self::Error>)
        default_ensures
            result == Ok::<(), Self::Error>(()),
            *final(self) == *old(self),
    {
        Ok(())
    }

    /// Handler for the disconnection of the peer, called with the outcome of the session.
    fn on_disconnect(&mut self, outcome: &Result<Option<CloseFrame>, Self::Error>) -> (result:
        Result<(), Self::Error>)
        default_ensures
            result == Ok::<(), Self::Error>(()),
            *final(self) == *old(self),
    {
        Ok(())
    }
}

/// What became of an action that was offered to the handlers.
#[derive(Debug, PartialEq, Eq)]
pub enum Handling<C, X> {
    /// The handler that the action is for was called, and returned this.
    Done { result: Result<(), X> },
    /// The action is for no handler.
    NotForHandlers { action: Action<C> },
}

/// Calls the handler that an action is for, with what the action has for it, and once.
pub fn call_handler<I, E: SessionExt>(
    extension: &mut E,
    actor: &SessionActor<I, E::Error>,
    action: Action<E::Call>,
) -> (handling: Handling<E::Call, E::Error>)
    requires
        action is OnDisconnect ==> actor@.phase is Disconnecting,
    ensures
        match action {
            Action::OnText { text } => handling matches Handling::Done { result } && exists|
                handler: &mut E,
            |
                {
                    &&& #[trigger] call_ensures(E::on_text, (handler, text), result)
                    &&& *handler == *old(extension)
                    &&& *final(handler) == *final(extension)
                },
            Action::OnBinary { bytes } => handling matches Handling::Done { result } && exists|
                handler: &mut E,
            |
                {
                    &&& #[trigger] call_ensures(E::on_binary, (handler, bytes), result)
                    &&& *handler == *old(extension)
                    &&& *final(handler) == *final(extension)
                },
            Action::OnCall { call } => handling matches Handling::Done { result } && exists|
                handler: &mut E,
            |
                {
                    &&& #[trigger] call_ensures(E::on_call, (handler, call), result)
                    &&& *handler == *old(extension)
                    &&& *final(handler) == *final(extension)
                },
            Action::OnDisconnect => handling matches Handling::Done { result } && exists|
                handler: &mut E,
                outcome: &Result<Option<CloseFrame>, E::Error>,
            |
                {
                    &&& #[trigger] call_ensures(E::on_disconnect, (handler, outcome), result)
                    &&& *handler == *old(extension)
                    &&& *final(handler) == *final(extension)
                    &&& actor@.phase == (PhaseView::<E::Error>::Disconnecting {
                        result: self::model::outcome_view(*outcome),
                    })
                },
            _ => {
                &&& handling == (Handling::<E::Call, E::Error>::NotForHandlers { action })
                &&& *final(extension) == *old(extension)
            },
        },
{
    match action {
        Action::OnText { text } => Handling::Done { result: extension.on_text(text) },
        Action::OnBinary { bytes } => Handling::Done { result: extension.on_binary(bytes) },
        Action::OnCall { call } => Handling::Done { result: extension.on_call(call) },
        Action::OnDisconnect => match actor.outcome() {
            Some(outcome) => Handling::Done { result: extension.on_disconnect(outcome) },
            None => Handling::NotForHandlers { action: Action::OnDisconnect },
        },
        action => Handling::NotForHandlers { action },
    }
}

/// Whether a session is alive, so that calls and messages can be sent to it: neither the queue of
/// its messages nor that of its calls is closed.
pub fn alive(socket_closed: bool, calls_closed: bool) -> (alive: bool)
    ensures
        alive == (!socket_closed && !calls_closed),
{
    !socket_closed && !calls_closed
}

fn clone_frame(frame: &Option<CloseFrame>) -> (copy: Option<CloseFrame>)
    ensures
        copy == *frame,
{
    match frame {
        Some(frame) => Some(frame.clone()),
        None => None,
    }
}

} // verus!
