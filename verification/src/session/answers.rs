//! What a session answers to each event: the action to perform, and the state that it is left in.
use crate::clock::UtcTime;
use crate::config::WebsocketConfig;
use crate::session::model::{ActionView, EventView, FailureView, PhaseView, SessionView};
use crate::session::{Action, Event, Failure, Handling, SessionActor, SessionExt, Step};
use crate::socket::{CloseFrame, CloseFrameView, Message};
use std::time::Duration;
use vstd::prelude::*;

verus! {

/// A new session has the ID that it was given and the timeout of its configuration, counts as
/// alive at its start, and waits.
pub proof fn new_session<I, X>(
    id: I,
    config: &WebsocketConfig,
    now: Duration,
    actor: SessionActor<I, X>,
)
    requires
        call_ensures(SessionActor::<I, X>::new, (id, config, now), actor),
    ensures
        actor@.id == id,
        actor@.timeout == crate::config::duration_nanos(config.timeout),
        actor@.last_alive == crate::config::duration_nanos(now),
        actor@.phase is Waiting,
{
}

/// A session tells its ID.
pub proof fn told_id<I, X>(actor: &SessionActor<I, X>, id: &I)
    requires
        call_ensures(SessionActor::<I, X>::id, (actor,), id),
    ensures
        *id == actor@.id,
{
}

/// A session tells its outcome while the handler of the disconnection runs, and only then: the
/// close frame with its code and reason, that there was none, or the error.
pub proof fn told_outcome<I, X>(
    actor: &SessionActor<I, X>,
    told: Option<&Result<Option<CloseFrame>, X>>,
)
    requires
        call_ensures(SessionActor::<I, X>::outcome, (actor,), told),
    ensures
        match actor@.phase {
            PhaseView::Disconnecting { result: Ok(Some(frame)) } => told matches Some(
                Ok(Some(own)),
            ) && own.code == frame.code && own.reason@ == frame.reason,
            PhaseView::Disconnecting { result: Ok(None) } => told matches Some(Ok(None)),
            PhaseView::Disconnecting { result: Err(error) } => told matches Some(Err(own)) && *own
                == error,
            _ => told is None,
        },
{
}

/// A session that waits accepts a heartbeat, a message or a call of the program, a message of the
/// peer, and the failure or the end of the connection. One that sends accepts the result of the
/// send, one whose handler runs that of the handler, and one that looks into the queue what is
/// there; none of them accepts anything else.
pub proof fn accepted_events<I, C, X>(
    actor: &SessionActor<I, X>,
    event: &Event<C, X>,
    accepted: bool,
)
    requires
        call_ensures(SessionActor::<I, X>::accepts::<C>, (actor, event), accepted),
    ensures
        accepted <==> match actor@.phase {
            PhaseView::Waiting => event is Tick || event is Outgoing || event is Call
                || event is Incoming || event is ConnectionFailed || event is ConnectionEnded,
            PhaseView::Pinging => event is Sent,
            PhaseView::TimingOut => event is Sent,
            PhaseView::Sending { .. } => event is Sent,
            PhaseView::Flushing { .. } => event is Sent,
            PhaseView::Failing { .. } => event is Sent,
            PhaseView::Calling => event is Handled,
            PhaseView::Handling => event is Handled,
            PhaseView::Disconnecting { .. } => event is Handled,
            PhaseView::Draining { .. } => event is Queued,
        },
{
    let utc = UtcTime { secs: 0, nanos: 0 };
    assert(accepted == actor@.phase.accepts(event.at(utc)));
}

/// An event that a session accepts, and that is no pong with a date out of range, can be given to
/// it, at any time of the wall clock.
pub proof fn accepted_events_are_answered<I, C, X>(
    actor: SessionActor<I, X>,
    event: Event<C, X>,
    utc: UtcTime,
)
    requires
        call_ensures(SessionActor::<I, X>::accepts::<C>, (&actor, &event), true),
        call_ensures(Event::<C, X>::is_datable, (&event,), true),
        utc.valid(),
    ensures
        call_requires(SessionActor::<I, X>::step_at::<C>, (actor, event, utc)),
        call_requires(SessionActor::<I, X>::step::<C>, (actor, event)),
{
    assert forall|time: UtcTime| actor@.phase.accepts(#[trigger] event.at(time)) by {
        assert(true == actor@.phase.accepts(event.at(time)));
    }
    assert forall|time: UtcTime| (#[trigger] event.at(time)).datable() by {
        assert(true == event.at(time).datable());
    }
    assert(actor@.phase.accepts(event.at(utc)));
    assert(event.at(utc).datable());
}

/// Every event is datable but a pong of eight bytes that name a time, in microseconds since the
/// Unix epoch, which is before the year -262143 or after the year 262142.
pub proof fn datable_events<C, X>(event: &Event<C, X>, datable: bool)
    requires
        call_ensures(Event::<C, X>::is_datable, (event,), datable),
    ensures
        !datable <==> (event matches Event::Incoming { message: Message::Pong(payload), .. }
            && payload@.len() == 8 && !(-8_334_601_228_800_000_000 <= crate::clock::be_signed(
            payload@,
        ) <= 8_210_266_876_799_999_999)),
{
    let utc = UtcTime { secs: 0, nanos: 0 };
    assert(datable == event.at(utc).datable());
}

/// What is answered is what the model says for some time of the wall clock. That time is read from
/// the clock where it matters: at a heartbeat in time, which sends a ping, and at a pong of eight
/// bytes, which shows a latency.
pub proof fn clock_is_read_where_it_matters<I, C, X>(
    actor: SessionActor<I, X>,
    event: Event<C, X>,
    step: Step<I, C, X>,
)
    requires
        call_ensures(SessionActor::<I, X>::step::<C>, (actor, event), step),
    ensures
        exists|utc: UtcTime|
            {
                &&& utc.valid()
                &&& utc.secs >= 0
                &&& step@ == actor@.transition(#[trigger] event.at(utc))
                &&& event matches Event::Tick { now } ==> crate::config::duration_nanos(now)
                    <= actor@.last_alive + actor@.timeout ==> crate::clock::is_clock_reading(utc)
                &&& event matches Event::Incoming { message: Message::Pong(payload), .. }
                    ==> payload@.len() == 8 ==> crate::clock::is_clock_reading(utc)
            },
{
    let utc = choose|utc: UtcTime|
        {
            &&& utc.valid()
            &&& utc.secs >= 0
            &&& actor@.reads_clock(event.at(utc)) ==> crate::clock::is_clock_reading(utc)
            &&& step@ == actor@.transition(#[trigger] event.at(utc))
        };
    assert(step@ == actor@.transition(event.at(utc)));
}

/// At a heartbeat, a session without a pong for longer than its timeout sends a close message with
/// the code for a normal end, which says why; any other sends a ping with the time, in whole
/// microseconds since the Unix epoch.
pub proof fn heartbeat_answer<I, C, X>(
    actor: SessionActor<I, X>,
    now: Duration,
    utc: UtcTime,
    step: Step<I, C, X>,
)
    requires
        actor@.phase is Waiting,
        utc.valid(),
        call_ensures(
            SessionActor::<I, X>::step_at::<C>,
            (actor, Event::Tick { now }, utc),
            step,
        ),
    ensures
        crate::config::duration_nanos(now) > actor@.last_alive + actor@.timeout ==> (step matches
            Step::Next { actor: next, action } && {
            &&& next@ == (SessionView { phase: PhaseView::TimingOut, ..actor@ })
            &&& action matches Action::Send { message: Message::Close(Some(frame)) }
            &&& frame.code is Normal
            &&& frame.reason@ == "client didn't respond to Ping frame"@
        }),
        crate::config::duration_nanos(now) <= actor@.last_alive + actor@.timeout ==> (step matches
            Step::Next { actor: next, action } && {
            &&& next@ == (SessionView { phase: PhaseView::Pinging, ..actor@ })
            &&& action matches Action::Send { message: Message::Ping(payload) }
            &&& payload@ == crate::clock::be_bytes(
                (utc.secs * 1_000_000 + utc.nanos / 1000) as i64,
            )
        }),
{
}

/// A message of the program is sent as it is. Where it is a close message, the session keeps its
/// frame.
pub proof fn outgoing_answer<I, C, X>(
    actor: SessionActor<I, X>,
    message: Message,
    utc: UtcTime,
    step: Step<I, C, X>,
)
    requires
        actor@.phase is Waiting,
        call_ensures(
            SessionActor::<I, X>::step_at::<C>,
            (actor, Event::Outgoing { message }, utc),
            step,
        ),
    ensures
        step matches Step::Next { actor: next, action } && {
            &&& next@ == (SessionView {
                phase: PhaseView::Sending {
                    close: match message {
                        Message::Close(Some(frame)) => Some(
                            Some(CloseFrameView { code: frame.code, reason: frame.reason@ }),
                        ),
                        Message::Close(None) => Some(None),
                        _ => None,
                    },
                },
                ..actor@
            })
            &&& action matches Action::Send { message: sent }
            &&& sent@ == message@
        },
{
}

/// A call of the program goes to the handler of calls, as it is.
pub proof fn call_answer<I, C, X>(
    actor: SessionActor<I, X>,
    call: C,
    utc: UtcTime,
    step: Step<I, C, X>,
)
    requires
        actor@.phase is Waiting,
        call_ensures(
            SessionActor::<I, X>::step_at::<C>,
            (actor, Event::Call { call }, utc),
            step,
        ),
    ensures
        step matches Step::Next { actor: next, action } && {
            &&& next@ == (SessionView { phase: PhaseView::Calling, ..actor@ })
            &&& action matches Action::OnCall { call: given } && given == call
        },
{
}

/// A text message of the peer goes to the handler of text messages, as it is.
pub proof fn text_answer<I, C, X>(
    actor: SessionActor<I, X>,
    text: String,
    now: Duration,
    utc: UtcTime,
    step: Step<I, C, X>,
)
    requires
        actor@.phase is Waiting,
        call_ensures(
            SessionActor::<I, X>::step_at::<C>,
            (actor, Event::Incoming { message: Message::Text(text), now }, utc),
            step,
        ),
    ensures
        step matches Step::Next { actor: next, action } && {
            &&& next@ == (SessionView { phase: PhaseView::Handling, ..actor@ })
            &&& action matches Action::OnText { text: given } && given@ == text@
        },
{
}

/// A binary message of the peer goes to the handler of binary messages, as it is.
pub proof fn binary_answer<I, C, X>(
    actor: SessionActor<I, X>,
    bytes: Vec<u8>,
    now: Duration,
    utc: UtcTime,
    step: Step<I, C, X>,
)
    requires
        actor@.phase is Waiting,
        call_ensures(
            SessionActor::<I, X>::step_at::<C>,
            (actor, Event::Incoming { message: Message::Binary(bytes), now }, utc),
            step,
        ),
    ensures
        step matches Step::Next { actor: next, action } && {
            &&& next@ == (SessionView { phase: PhaseView::Handling, ..actor@ })
            &&& action matches Action::OnBinary { bytes: given } && given@ == bytes@
        },
{
}

/// A ping of the peer changes nothing: the session goes on waiting.
pub proof fn ping_answer<I, C, X>(
    actor: SessionActor<I, X>,
    payload: Vec<u8>,
    now: Duration,
    utc: UtcTime,
    step: Step<I, C, X>,
)
    requires
        actor@.phase is Waiting,
        call_ensures(
            SessionActor::<I, X>::step_at::<C>,
            (actor, Event::Incoming { message: Message::Ping(payload), now }, utc),
            step,
        ),
    ensures
        step matches Step::Next { actor: next, action } && next@ == actor@ && action is Wait,
{
}

/// After a pong the session counts as alive at the time of the pong, and goes on waiting. The
/// latency of a pong of eight bytes is told: the milliseconds from the time that the bytes name, in
/// microseconds since the Unix epoch, to that of the wall clock, rounded towards zero.
pub proof fn pong_answer<I, C, X>(
    actor: SessionActor<I, X>,
    payload: Vec<u8>,
    now: Duration,
    utc: UtcTime,
    step: Step<I, C, X>,
)
    requires
        actor@.phase is Waiting,
        call_ensures(
            SessionActor::<I, X>::step_at::<C>,
            (actor, Event::Incoming { message: Message::Pong(payload), now }, utc),
            step,
        ),
    ensures
        step matches Step::Next { actor: next, action } && {
            &&& next@ == (SessionView {
                last_alive: crate::config::duration_nanos(now),
                phase: PhaseView::Waiting,
                ..actor@
            })
            &&& action matches Action::ReportLatency { latency }
            &&& latency is Some <==> payload@.len() == 8
            &&& latency matches Some(millis) ==> {
                let elapsed = utc.secs * 1_000_000_000 + utc.nanos - crate::clock::be_signed(
                    payload@,
                ) * 1000;
                &&& elapsed >= 0 ==> millis * 1_000_000 <= elapsed < (millis + 1) * 1_000_000
                &&& elapsed <= 0 ==> (millis - 1) * 1_000_000 < elapsed <= millis * 1_000_000
            }
        },
{
}

/// A close message of the peer, with any frame or none, gives the session its outcome, and the
/// handler of the disconnection is called.
pub proof fn close_answer<I, C, X>(
    actor: SessionActor<I, X>,
    frame: Option<CloseFrame>,
    now: Duration,
    utc: UtcTime,
    step: Step<I, C, X>,
)
    requires
        actor@.phase is Waiting,
        call_ensures(
            SessionActor::<I, X>::step_at::<C>,
            (actor, Event::Incoming { message: Message::Close(frame), now }, utc),
            step,
        ),
    ensures
        step matches Step::Next { actor: next, action } && {
            &&& next@ == (SessionView { phase: PhaseView::Disconnecting {
                result: Ok(
                    match frame {
                        Some(frame) => Some(
                            CloseFrameView { code: frame.code, reason: frame.reason@ },
                        ),
                        None => None,
                    },
                ),
            }, ..actor@ })
            &&& action is OnDisconnect
        },
{
}

/// The end of the connection gives the session an outcome without a frame or an error, and the
/// handler of the disconnection is called.
pub proof fn connection_end_answer<I, C, X>(
    actor: SessionActor<I, X>,
    utc: UtcTime,
    step: Step<I, C, X>,
)
    requires
        actor@.phase is Waiting,
        call_ensures(
            SessionActor::<I, X>::step_at::<C>,
            (actor, Event::ConnectionEnded, utc),
            step,
        ),
    ensures
        step matches Step::Next { actor: next, action } && {
            &&& next@ == (SessionView { phase: PhaseView::Disconnecting { result: Ok(None) }, ..actor@ })
            &&& action is OnDisconnect
        },
{
}

/// A failure of the connection gives the session its error as the outcome, and the handler of the
/// disconnection is called.
pub proof fn connection_failure_answer<I, C, X>(
    actor: SessionActor<I, X>,
    error: X,
    utc: UtcTime,
    step: Step<I, C, X>,
)
    requires
        actor@.phase is Waiting,
        call_ensures(
            SessionActor::<I, X>::step_at::<C>,
            (actor, Event::ConnectionFailed { error }, utc),
            step,
        ),
    ensures
        step matches Step::Next { actor: next, action } && {
            &&& next@ == (SessionView { phase: PhaseView::Disconnecting { result: Err(error) }, ..actor@ })
            &&& action is OnDisconnect
        },
{
}

/// Once a message is sent: after a ping and a message of the program the session waits, unless
/// that was a close message, whose frame is then the outcome; after the close message of a timeout
/// the outcome is without a frame or an error; after a message of the queue the next is taken; and
/// after the close message of a failure its error is the outcome.
pub proof fn sent_answer<I, C, X>(
    actor: SessionActor<I, X>,
    utc: UtcTime,
    step: Step<I, C, X>,
)
    requires
        ({
            ||| actor@.phase is Pinging
            ||| actor@.phase is TimingOut
            ||| actor@.phase is Sending
            ||| actor@.phase is Flushing
            ||| actor@.phase is Failing
        }),
        call_ensures(
            SessionActor::<I, X>::step_at::<C>,
            (actor, Event::Sent { result: Ok(()) }, utc),
            step,
        ),
    ensures
        step matches Step::Next { actor: next, action } && {
            &&& next@.id == actor@.id
            &&& next@.timeout == actor@.timeout
            &&& next@.last_alive == actor@.last_alive
            &&& match actor@.phase {
                PhaseView::TimingOut => action is OnDisconnect && next@.phase == (PhaseView::<
                    X,
                >::Disconnecting { result: Ok(None) }),
                PhaseView::Sending { close: Some(frame) } => action is OnDisconnect && next@.phase
                    == (PhaseView::<X>::Disconnecting { result: Ok(frame) }),
                PhaseView::Flushing { failure } => action is TakeQueued && next@.phase == (
                PhaseView::<X>::Draining { failure }),
                PhaseView::Failing { error } => action is OnDisconnect && next@.phase == (
                PhaseView::<X>::Disconnecting { result: Err(error) }),
                _ => action is Wait && next@.phase is Waiting,
            }
        },
{
}

/// A message that cannot be sent, whatever it was for, gives the session the error as its outcome,
/// and the handler of the disconnection is called.
pub proof fn failed_send_answer<I, C, X>(
    actor: SessionActor<I, X>,
    error: X,
    utc: UtcTime,
    step: Step<I, C, X>,
)
    requires
        ({
            ||| actor@.phase is Pinging
            ||| actor@.phase is TimingOut
            ||| actor@.phase is Sending
            ||| actor@.phase is Flushing
            ||| actor@.phase is Failing
        }),
        call_ensures(
            SessionActor::<I, X>::step_at::<C>,
            (actor, Event::Sent { result: Err(error) }, utc),
            step,
        ),
    ensures
        step matches Step::Next { actor: next, action } && {
            &&& next@ == (SessionView { phase: PhaseView::Disconnecting { result: Err(error) }, ..actor@ })
            &&& action is OnDisconnect
        },
{
}

/// After a handler of a message or of a call that succeeds, the session waits.
pub proof fn handled_answer<I, C, X>(
    actor: SessionActor<I, X>,
    utc: UtcTime,
    step: Step<I, C, X>,
)
    requires
        actor@.phase is Handling || actor@.phase is Calling,
        call_ensures(
            SessionActor::<I, X>::step_at::<C>,
            (actor, Event::Handled { outcome: Ok(()) }, utc),
            step,
        ),
    ensures
        step matches Step::Next { actor: next, action } && {
            &&& next@ == (SessionView { phase: PhaseView::Waiting, ..actor@ })
            &&& action is Wait
        },
{
}

/// When the handler of a message fails, the session keeps the failure and looks into the queue of
/// messages for the peer.
pub proof fn failed_handler_answer<I, C, X>(
    actor: SessionActor<I, X>,
    failure: Failure<X>,
    utc: UtcTime,
    step: Step<I, C, X>,
)
    requires
        actor@.phase is Handling,
        call_ensures(
            SessionActor::<I, X>::step_at::<C>,
            (actor, Event::Handled { outcome: Err(failure) }, utc),
            step,
        ),
    ensures
        step matches Step::Next { actor: next, action } && {
            &&& next@ == (SessionView { phase: PhaseView::Draining {
                failure: FailureView { error: failure.error, text: failure.text@ },
            }, ..actor@ })
            &&& action is TakeQueued
        },
{
}

/// When the handler of a call fails, the session has the error as its outcome, and the handler of
/// the disconnection is called.
pub proof fn failed_call_answer<I, C, X>(
    actor: SessionActor<I, X>,
    failure: Failure<X>,
    utc: UtcTime,
    step: Step<I, C, X>,
)
    requires
        actor@.phase is Calling,
        call_ensures(
            SessionActor::<I, X>::step_at::<C>,
            (actor, Event::Handled { outcome: Err(failure) }, utc),
            step,
        ),
    ensures
        step matches Step::Next { actor: next, action } && {
            &&& next@ == (SessionView { phase: PhaseView::Disconnecting { result: Err(failure.error) }, ..actor@ })
            &&& action is OnDisconnect
        },
{
}

/// A message from the queue is sent as it is, and the failure is kept.
pub proof fn queued_answer<I, C, X>(
    actor: SessionActor<I, X>,
    message: Message,
    utc: UtcTime,
    step: Step<I, C, X>,
)
    requires
        actor@.phase is Draining,
        call_ensures(
            SessionActor::<I, X>::step_at::<C>,
            (actor, Event::Queued { taken: Some(message) }, utc),
            step,
        ),
    ensures
        step matches Step::Next { actor: next, action } && {
            &&& next@ == (SessionView { phase: PhaseView::Flushing { failure: actor@.phase->Draining_failure }, ..actor@ })
            &&& action matches Action::Send { message: sent } && sent@ == message@
        },
{
}

/// Once the queue is empty, a close message with the code for an error and the text of the failure
/// is sent.
pub proof fn emptied_answer<I, C, X>(
    actor: SessionActor<I, X>,
    utc: UtcTime,
    step: Step<I, C, X>,
)
    requires
        actor@.phase is Draining,
        call_ensures(
            SessionActor::<I, X>::step_at::<C>,
            (actor, Event::Queued { taken: None }, utc),
            step,
        ),
    ensures
        step matches Step::Next { actor: next, action } && {
            &&& next@ == (SessionView {
                phase: PhaseView::Failing { error: actor@.phase->Draining_failure.error },
                ..actor@
            })
            &&& action matches Action::Send { message: Message::Close(Some(frame)) }
            &&& frame.code is Error
            &&& frame.reason@ == actor@.phase->Draining_failure.text
        },
{
}

/// After the handler of the disconnection the session is over. Its end is reported with its ID, and
/// with the outcome that was told before.
pub proof fn report_answer<I, C, X>(
    actor: SessionActor<I, X>,
    told: Option<&Result<Option<CloseFrame>, X>>,
    utc: UtcTime,
    step: Step<I, C, X>,
)
    requires
        actor@.phase is Disconnecting,
        call_ensures(SessionActor::<I, X>::outcome, (&actor,), told),
        call_ensures(
            SessionActor::<I, X>::step_at::<C>,
            (actor, Event::Handled { outcome: Ok(()) }, utc),
            step,
        ),
    ensures
        step matches Step::Finished { disconnected } && {
            &&& disconnected.id == actor@.id
            &&& match *told->0 {
                Ok(Some(frame)) => disconnected.result matches Ok(Some(reported)) && {
                    &&& reported.code == frame.code
                    &&& reported.reason@ == frame.reason@
                },
                Ok(None) => disconnected.result matches Ok(None),
                Err(error) => disconnected.result matches Err(reported) && reported == error,
            }
        },
{
}

/// After a handler of the disconnection that fails the session is over too, and its end is reported
/// with its ID and the error of the handler.
pub proof fn failed_report_answer<I, C, X>(
    actor: SessionActor<I, X>,
    failure: Failure<X>,
    utc: UtcTime,
    step: Step<I, C, X>,
)
    requires
        actor@.phase is Disconnecting,
        call_ensures(
            SessionActor::<I, X>::step_at::<C>,
            (actor, Event::Handled { outcome: Err(failure) }, utc),
            step,
        ),
    ensures
        step matches Step::Finished { disconnected } && {
            &&& disconnected.id == actor@.id
            &&& disconnected.result matches Err(error)
            &&& error == failure.error
        },
{
}

/// Two calls in a row: the close message of a peer is what the session then tells as its outcome,
/// with the same code and reason.
pub proof fn peer_close_is_told<I, C, X>(
    actor: SessionActor<I, X>,
    frame: CloseFrame,
    now: Duration,
    utc: UtcTime,
    step: Step<I, C, X>,
    told: Option<&Result<Option<CloseFrame>, X>>,
)
    requires
        actor@.phase is Waiting,
        call_ensures(
            SessionActor::<I, X>::step_at::<C>,
            (actor, Event::Incoming { message: Message::Close(Some(frame)), now }, utc),
            step,
        ),
        step is Next,
        call_ensures(SessionActor::<I, X>::outcome, (&step->actor,), told),
    ensures
        told matches Some(Ok(Some(own))) && own.code == frame.code && own.reason@ == frame.reason@,
{
    close_answer(actor, Some(frame), now, utc, step);
    told_outcome(&step->actor, told);
}

/// Whatever follows an event, the session is left so that it accepts the result of the action: that
/// of a send, of a handler, or of a look into the queue. Where nothing but waiting is to be done,
/// it waits, and accepts whatever comes next.
pub proof fn actions_leave_their_phase<I, C, X>(state: SessionView<I, X>, event: EventView<C, X>)
    requires
        state.phase.accepts(event),
        state.transition(event) is Next,
    ensures
        match state.transition(event)->action {
            ActionView::Wait => state.transition(event)->state.phase is Waiting,
            ActionView::ReportLatency { .. } => state.transition(event)->state.phase is Waiting,
            ActionView::Send { .. } => {
                ||| state.transition(event)->state.phase is Pinging
                ||| state.transition(event)->state.phase is TimingOut
                ||| state.transition(event)->state.phase is Sending
                ||| state.transition(event)->state.phase is Flushing
                ||| state.transition(event)->state.phase is Failing
            },
            ActionView::OnText { .. } => state.transition(event)->state.phase is Handling,
            ActionView::OnBinary { .. } => state.transition(event)->state.phase is Handling,
            ActionView::OnCall { .. } => state.transition(event)->state.phase is Calling,
            ActionView::OnDisconnect => state.transition(event)->state.phase is Disconnecting,
            ActionView::TakeQueued => state.transition(event)->state.phase is Draining,
        },
{
}

/// A session only waits after a ping or pong of the peer, a send, or a handler.
pub proof fn waits_only_after<I, C, X>(state: SessionView<I, X>, event: EventView<C, X>)
    requires
        state.phase.accepts(event),
        state.transition(event) is Next,
        state.transition(event)->state.phase is Waiting,
    ensures
        match event {
            EventView::Incoming { message, .. } => message is Ping || message is Pong,
            EventView::Sent { result } => result is Ok,
            EventView::Handled { outcome } => outcome is Ok,
            _ => false,
        },
{
}

/// A text goes to the handler of text messages, once and as it is, and what the handler returns is
/// what became of it.
pub proof fn text_is_handled<I, E: SessionExt>(
    extension: &mut E,
    actor: &SessionActor<I, E::Error>,
    text: String,
    handling: Handling<E::Call, E::Error>,
)
    requires
        call_ensures(
            crate::session::call_handler::<I, E>,
            (extension, actor, Action::OnText { text }),
            handling,
        ),
    ensures
        handling matches Handling::Done { result } && exists|handler: &mut E|
            {
                &&& #[trigger] call_ensures(E::on_text, (handler, text), result)
                &&& *handler == *old(extension)
                &&& *final(handler) == *final(extension)
            },
{
}

/// The bytes of a binary message go to the handler of binary messages, once and as they are, and
/// what the handler returns is what became of them.
pub proof fn binary_is_handled<I, E: SessionExt>(
    extension: &mut E,
    actor: &SessionActor<I, E::Error>,
    bytes: Vec<u8>,
    handling: Handling<E::Call, E::Error>,
)
    requires
        call_ensures(
            crate::session::call_handler::<I, E>,
            (extension, actor, Action::OnBinary { bytes }),
            handling,
        ),
    ensures
        handling matches Handling::Done { result } && exists|handler: &mut E|
            {
                &&& #[trigger] call_ensures(E::on_binary, (handler, bytes), result)
                &&& *handler == *old(extension)
                &&& *final(handler) == *final(extension)
            },
{
}

/// A call goes to the handler of calls, once and as it is, and what the handler returns is what
/// became of it.
pub proof fn call_is_handled<I, E: SessionExt>(
    extension: &mut E,
    actor: &SessionActor<I, E::Error>,
    call: E::Call,
    handling: Handling<E::Call, E::Error>,
)
    requires
        call_ensures(
            crate::session::call_handler::<I, E>,
            (extension, actor, Action::OnCall { call }),
            handling,
        ),
    ensures
        handling matches Handling::Done { result } && exists|handler: &mut E|
            {
                &&& #[trigger] call_ensures(E::on_call, (handler, call), result)
                &&& *handler == *old(extension)
                &&& *final(handler) == *final(extension)
            },
{
}

/// The outcome of a session goes to the handler of the disconnection, once and as it is, and what
/// the handler returns is what became of it.
pub proof fn disconnection_is_handled<I, E: SessionExt>(
    extension: &mut E,
    actor: &SessionActor<I, E::Error>,
    handling: Handling<E::Call, E::Error>,
)
    requires
        actor@.phase is Disconnecting,
        call_ensures(
            crate::session::call_handler::<I, E>,
            (extension, actor, Action::OnDisconnect),
            handling,
        ),
    ensures
        handling matches Handling::Done { result } && exists|
            handler: &mut E,
            outcome: &Result<Option<CloseFrame>, E::Error>,
        |
            {
                &&& #[trigger] call_ensures(E::on_disconnect, (handler, outcome), result)
                &&& *handler == *old(extension)
                &&& *final(handler) == *final(extension)
                &&& match (actor@.phase->Disconnecting_result, *outcome) {
                    (Ok(Some(frame)), Ok(Some(given))) => given.code == frame.code && given.reason@
                        == frame.reason,
                    (Ok(None), Ok(None)) => true,
                    (Err(error), Err(given)) => given == error,
                    _ => false,
                }
            },
{
}

/// What is for no handler comes back as it is, and no handler is called.
pub proof fn other_actions_come_back<I, E: SessionExt>(
    extension: &mut E,
    actor: &SessionActor<I, E::Error>,
    action: Action<E::Call>,
    handling: Handling<E::Call, E::Error>,
)
    requires
        action is Wait || action is ReportLatency || action is Send || action is TakeQueued,
        call_ensures(
            crate::session::call_handler::<I, E>,
            (extension, actor, action),
            handling,
        ),
    ensures
        handling matches Handling::NotForHandlers { action: back } && back == action,
        *final(extension) == *old(extension),
{
}

/// Messages and calls can be sent to a session while both of its queues are open, and once either
/// is closed no longer.
pub proof fn alive_while_both_are_open(socket_closed: bool, calls_closed: bool, alive: bool)
    requires
        call_ensures(crate::session::alive, (socket_closed, calls_closed), alive),
    ensures
        alive ==> !socket_closed && !calls_closed,
        !alive ==> socket_closed || calls_closed,
{
}

} // verus!
