//! The mathematical model of a session: its states, and what follows each event.
use crate::clock::UtcTime;
use crate::session::{Action, Event, Failure};
use crate::socket::{CloseCode, CloseFrame, CloseFrameView, MessageView};
use vstd::prelude::*;

verus! {

/// The content of a [`Failure`].
#[verifier::ext_equal]
pub struct FailureView<X> {
    pub error: X,
    pub text: Seq<char>,
}

/// The content of an [`Event`]. A tick, and a message from the peer, has the wall clock's time as
/// well.
#[verifier::ext_equal]
pub enum EventView<C, X> {
    Tick { now: nat, utc: UtcTime },
    Outgoing { message: MessageView },
    Call { call: C },
    Incoming { message: MessageView, now: nat, utc: UtcTime },
    ConnectionFailed { error: X },
    ConnectionEnded,
    Sent { result: Result<(), X> },
    Handled { outcome: Result<(), FailureView<X>> },
    Queued { taken: Option<MessageView> },
}

/// The content of an [`Action`].
#[verifier::ext_equal]
pub enum ActionView<C> {
    Wait,
    ReportLatency { latency: Option<int> },
    Send { message: MessageView },
    OnText { text: Seq<char> },
    OnBinary { bytes: Seq<u8> },
    OnCall { call: C },
    OnDisconnect,
    TakeQueued,
}

/// What a session is in the middle of.
#[verifier::ext_equal]
pub enum PhaseView<X> {
    /// Nothing: the session waits for an event.
    Waiting,
    /// A ping is being sent.
    Pinging,
    /// The close message of a session without a pong in time is being sent.
    TimingOut,
    /// A message of the program is being sent; `close` has the frame if it is a close message.
    Sending { close: Option<Option<CloseFrameView>> },
    /// The handler of calls runs.
    Calling,
    /// The handler of text or of binary messages runs.
    Handling,
    /// That handler has failed, and the next message of the queue is being taken.
    Draining { failure: FailureView<X> },
    /// That handler has failed, and a message of the queue is being sent.
    Flushing { failure: FailureView<X> },
    /// That handler has failed, and the close message is being sent.
    Failing { error: X },
    /// The session has its outcome, and the handler of the disconnection runs.
    Disconnecting { result: Result<Option<CloseFrameView>, X> },
}

/// The state of a session; times are in nanoseconds.
#[verifier::ext_equal]
pub struct SessionView<I, X> {
    pub id: I,
    pub timeout: nat,
    pub last_alive: nat,
    pub phase: PhaseView<X>,
}

/// What follows an event.
#[verifier::ext_equal]
pub enum StepView<I, C, X> {
    Next { state: SessionView<I, X>, action: ActionView<C> },
    Finished { id: I, result: Result<Option<CloseFrameView>, X> },
}

impl<X> View for Failure<X> {
    type V = FailureView<X>;

    open spec fn view(&self) -> FailureView<X> {
        FailureView { error: self.error, text: self.text@ }
    }
}

impl<C> View for Action<C> {
    type V = ActionView<C>;

    open spec fn view(&self) -> ActionView<C> {
        match *self {
            Action::Wait => ActionView::Wait,
            Action::ReportLatency { latency } => ActionView::ReportLatency {
                latency: crate::clock::latency_view(latency),
            },
            Action::Send { message } => ActionView::Send { message: message@ },
            Action::OnText { text } => ActionView::OnText { text: text@ },
            Action::OnBinary { bytes } => ActionView::OnBinary { bytes: bytes@ },
            Action::OnCall { call } => ActionView::OnCall { call },
            Action::OnDisconnect => ActionView::OnDisconnect,
            Action::TakeQueued => ActionView::TakeQueued,
        }
    }
}

/// The content of the outcome of a session.
pub open spec fn outcome_view<X>(result: Result<Option<CloseFrame>, X>) -> Result<
    Option<CloseFrameView>,
    X,
> {
    match result {
        Ok(frame) => Ok(crate::socket::frame_view(frame)),
        Err(error) => Err(error),
    }
}

impl<C, X> Event<C, X> {
    /// The content of the event, with the wall clock's time at it.
    pub open spec fn at(self, utc: UtcTime) -> EventView<C, X> {
        match self {
            Event::Tick { now } => EventView::Tick {
                now: crate::config::duration_nanos(now),
                utc,
            },
            Event::Outgoing { message } => EventView::Outgoing { message: message@ },
            Event::Call { call } => EventView::Call { call },
            Event::Incoming { message, now } => EventView::Incoming {
                message: message@,
                now: crate::config::duration_nanos(now),
                utc,
            },
            Event::ConnectionFailed { error } => EventView::ConnectionFailed { error },
            Event::ConnectionEnded => EventView::ConnectionEnded,
            Event::Sent { result } => EventView::Sent { result },
            Event::Handled { outcome } => EventView::Handled {
                outcome: match outcome {
                    Ok(_) => Ok(()),
                    Err(failure) => Err(failure@),
                },
            },
            Event::Queued { taken } => EventView::Queued {
                taken: match taken {
                    Some(message) => Some(message@),
                    None => None,
                },
            },
        }
    }
}

impl<C, X> EventView<C, X> {
    /// The event is no pong whose payload names a date out of range.
    pub open spec fn datable(self) -> bool {
        self matches EventView::Incoming { message: MessageView::Pong(payload), .. }
            ==> crate::clock::payload_datable(payload)
    }
}

impl<X> PhaseView<X> {
    /// In this phase a message is being sent.
    pub open spec fn sends(self) -> bool {
        self is Pinging || self is TimingOut || self is Sending || self is Flushing
            || self is Failing
    }

    /// In this phase a handler runs.
    pub open spec fn handles(self) -> bool {
        self is Calling || self is Handling || self is Disconnecting
    }

    /// The event is one that can happen in this phase: the result of what the session is in the
    /// middle of or, where it waits, anything but a result.
    pub open spec fn accepts<C>(self, event: EventView<C, X>) -> bool {
        match event {
            EventView::Sent { .. } => self.sends(),
            EventView::Handled { .. } => self.handles(),
            EventView::Queued { .. } => self is Draining,
            _ => self is Waiting,
        }
    }
}

/// The frame that closes a session without a pong in time.
pub open spec fn timeout_frame() -> CloseFrameView {
    CloseFrameView { code: CloseCode::Normal, reason: "client didn't respond to Ping frame"@ }
}

/// The frame that closes a session whose handler has failed.
pub open spec fn failure_frame(text: Seq<char>) -> CloseFrameView {
    CloseFrameView { code: CloseCode::Error, reason: text }
}

impl<I, X> SessionView<I, X> {
    /// A session at its start.
    pub open spec fn initial(id: I, timeout: nat, now: nat) -> Self {
        SessionView { id, timeout, last_alive: now, phase: PhaseView::Waiting }
    }

    /// The session has been without a pong for longer than its timeout.
    pub open spec fn timed_out(self, now: nat) -> bool {
        now > self.last_alive + self.timeout
    }

    /// What follows the event depends on the wall clock: a ping is sent, or a pong brings a
    /// timestamp back.
    pub open spec fn reads_clock<C>(self, event: EventView<C, X>) -> bool {
        match event {
            EventView::Tick { now, .. } => !self.timed_out(now),
            EventView::Incoming { message: MessageView::Pong(payload), .. } => payload.len() == 8,
            _ => false,
        }
    }

    /// The session goes on with an action.
    pub open spec fn then_do<C>(self, phase: PhaseView<X>, action: ActionView<C>) -> StepView<
        I,
        C,
        X,
    > {
        StepView::Next { state: SessionView { phase, ..self }, action }
    }

    /// The session goes back to waiting.
    pub open spec fn then_wait<C>(self) -> StepView<I, C, X> {
        self.then_do(PhaseView::Waiting, ActionView::Wait)
    }

    /// The session sends a message.
    pub open spec fn then_send<C>(self, phase: PhaseView<X>, message: MessageView) -> StepView<
        I,
        C,
        X,
    > {
        self.then_do(phase, ActionView::Send { message })
    }

    /// The session has its outcome: the handler of the disconnection is called with it.
    pub open spec fn then_disconnect<C>(
        self,
        result: Result<Option<CloseFrameView>, X>,
    ) -> StepView<I, C, X> {
        self.then_do(PhaseView::Disconnecting { result }, ActionView::OnDisconnect)
    }

    /// What follows a heartbeat: the end of a session that has timed out, or a ping that carries
    /// the time.
    pub open spec fn on_tick<C>(self, now: nat, utc: UtcTime) -> StepView<I, C, X> {
        if self.timed_out(now) {
            self.then_send(PhaseView::TimingOut, MessageView::Close(Some(timeout_frame())))
        } else {
            self.then_send(
                PhaseView::Pinging,
                MessageView::Ping(crate::clock::be_bytes(utc.epoch_micros() as i64)),
            )
        }
    }

    /// What follows a message that the program has queued: it is sent.
    pub open spec fn on_outgoing<C>(self, message: MessageView) -> StepView<I, C, X> {
        let close = match message {
            MessageView::Close(frame) => Some(frame),
            _ => None,
        };
        self.then_send(PhaseView::Sending { close }, message)
    }

    /// What follows a message from the peer: text and binary messages go to their handlers, a pong
    /// shows that the peer is alive and how far it is, a close message ends the session, and a ping is of no
    /// concern here.
    pub open spec fn on_incoming<C>(self, message: MessageView, now: nat, utc: UtcTime) -> StepView<
        I,
        C,
        X,
    > {
        match message {
            MessageView::Text(text) => self.then_do(
                PhaseView::Handling,
                ActionView::OnText { text },
            ),
            MessageView::Binary(bytes) => self.then_do(
                PhaseView::Handling,
                ActionView::OnBinary { bytes },
            ),
            MessageView::Ping(_) => self.then_wait(),
            MessageView::Pong(payload) => SessionView { last_alive: now, ..self }.then_do(
                PhaseView::Waiting,
                ActionView::ReportLatency { latency: crate::clock::latency_spec(utc, payload) },
            ),
            MessageView::Close(frame) => self.then_disconnect(Ok(frame)),
        }
    }

    /// What follows a message that was sent.
    pub open spec fn on_sent<C>(self) -> StepView<I, C, X> {
        match self.phase {
            PhaseView::TimingOut => self.then_disconnect(Ok(None)),
            PhaseView::Sending { close: Some(frame) } => self.then_disconnect(Ok(frame)),
            PhaseView::Flushing { failure } => self.then_do(
                PhaseView::Draining { failure },
                ActionView::TakeQueued,
            ),
            PhaseView::Failing { error } => self.then_disconnect(Err(error)),
            _ => self.then_wait(),
        }
    }

    /// What follows a handler that has succeeded.
    pub open spec fn on_handled<C>(self) -> StepView<I, C, X> {
        match self.phase {
            PhaseView::Disconnecting { result } => StepView::Finished { id: self.id, result },
            _ => self.then_wait(),
        }
    }

    /// What follows a handler that has failed.
    pub open spec fn on_failure<C>(self, failure: FailureView<X>) -> StepView<I, C, X> {
        match self.phase {
            PhaseView::Handling => self.then_do(
                PhaseView::Draining { failure },
                ActionView::TakeQueued,
            ),
            PhaseView::Disconnecting { .. } => StepView::Finished {
                id: self.id,
                result: Err(failure.error),
            },
            _ => self.then_disconnect(Err(failure.error)),
        }
    }

    /// What follows a look into the queue: a message that it held is sent, and after the last of
    /// them the close message.
    pub open spec fn on_queued<C>(self, message: Option<MessageView>) -> StepView<I, C, X> {
        let failure = self.phase->Draining_failure;
        match message {
            Some(message) => self.then_send(PhaseView::Flushing { failure }, message),
            None => self.then_send(
                PhaseView::Failing { error: failure.error },
                MessageView::Close(Some(failure_frame(failure.text))),
            ),
        }
    }

    /// What follows an event.
    pub open spec fn transition<C>(self, event: EventView<C, X>) -> StepView<I, C, X>
        recommends
            self.phase.accepts(event),
            event.datable(),
    {
        match event {
            EventView::Tick { now, utc } => self.on_tick(now, utc),
            EventView::Outgoing { message } => self.on_outgoing(message),
            EventView::Call { call } => self.then_do(
                PhaseView::Calling,
                ActionView::OnCall { call },
            ),
            EventView::Incoming { message, now, utc } => self.on_incoming(message, now, utc),
            EventView::ConnectionFailed { error } => self.then_disconnect(Err(error)),
            EventView::ConnectionEnded => self.then_disconnect(Ok(None)),
            EventView::Sent { result: Ok(_) } => self.on_sent(),
            EventView::Sent { result: Err(error) } => self.then_disconnect(Err(error)),
            EventView::Handled { outcome: Ok(_) } => self.on_handled(),
            EventView::Handled { outcome: Err(failure) } => self.on_failure(failure),
            EventView::Queued { taken } => self.on_queued(taken),
        }
    }
}

} // verus!
