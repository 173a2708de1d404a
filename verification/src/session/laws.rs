//! Laws of a session: what holds over whole runs of it.
use crate::clock::UtcTime;
use crate::config::WebsocketConfig;
use crate::session::model::{ActionView, EventView, FailureView, PhaseView, SessionView, StepView};
use crate::session::SessionActor;
use crate::socket::{CloseCode, CloseFrameView, MessageView};
use std::time::Duration;
use vstd::prelude::*;

verus! {

/// The state after a run of events.
pub open spec fn after<I, C, X>(
    start: SessionView<I, X>,
    events: Seq<EventView<C, X>>,
) -> SessionView<I, X>
    decreases events.len(),
{
    if events.len() == 0 {
        start
    } else {
        after(start, events.drop_last()).transition(events.last())->state
    }
}

/// The actions of a run of events, one for each event.
pub open spec fn actions<I, C, X>(
    start: SessionView<I, X>,
    events: Seq<EventView<C, X>>,
) -> Seq<ActionView<C>>
    decreases events.len(),
{
    if events.len() == 0 {
        Seq::empty()
    } else {
        actions(start, events.drop_last()).push(
            after(start, events.drop_last()).transition(events.last())->action,
        )
    }
}

/// The events can happen one after the other, and the session is not over after them.
pub open spec fn possible<I, C, X>(
    start: SessionView<I, X>,
    events: Seq<EventView<C, X>>,
) -> bool
    decreases events.len(),
{
    events.len() == 0 || {
        let before = after(start, events.drop_last());
        &&& possible(start, events.drop_last())
        &&& before.phase.accepts(events.last())
        &&& events.last().datable()
        &&& before.transition(events.last()) is Next
    }
}

/// When the peer last showed that it is alive: at the last pong of the run or, without one, at
/// the given time.
pub open spec fn last_pong<C, X>(start: nat, events: Seq<EventView<C, X>>) -> nat
    decreases events.len(),
{
    if events.len() == 0 {
        start
    } else {
        match events.last() {
            EventView::Incoming { message: MessageView::Pong(_), now, .. } => now,
            _ => last_pong(start, events.drop_last()),
        }
    }
}

/// Only pongs count as a sign of life, and nothing changes a session's ID or timeout.
pub proof fn only_pongs_keep_alive<I, C, X>(
    start: SessionView<I, X>,
    events: Seq<EventView<C, X>>,
)
    requires
        possible(start, events),
    ensures
        after(start, events).last_alive == last_pong(start.last_alive, events),
        after(start, events).id == start.id,
        after(start, events).timeout == start.timeout,
    decreases events.len(),
{
    if events.len() > 0 {
        only_pongs_keep_alive(start, events.drop_last());
    }
}

/// At a heartbeat, a session that has had no pong for longer than its timeout is closed, with a
/// normal close frame that says so; any other session sends a ping.
pub proof fn heartbeat<I, C, X>(
    start: SessionView<I, X>,
    events: Seq<EventView<C, X>>,
    now: nat,
    utc: UtcTime,
)
    requires
        possible(start, events),
        after(start, events).phase is Waiting,
    ensures
        after(start, events).transition::<C>(EventView::Tick { now, utc })->action == (
        ActionView::<C>::Send {
            message: if now > last_pong(start.last_alive, events) + start.timeout {
                MessageView::Close(
                    Some(
                        CloseFrameView {
                            code: CloseCode::Normal,
                            reason: "client didn't respond to Ping frame"@,
                        },
                    ),
                )
            } else {
                MessageView::Ping(
                    crate::clock::be_bytes((utc.secs * 1_000_000 + utc.nanos / 1000) as i64),
                )
            },
        }),
{
    only_pongs_keep_alive(start, events);
}

/// From its start on, whatever happens in between, a session is closed at a heartbeat that comes
/// later than the configured timeout after its last pong or, without one, after its start; at any
/// other heartbeat the peer is sent a ping.
pub proof fn configured_timeout_is_kept<I, C, X>(
    id: I,
    config: &WebsocketConfig,
    start: Duration,
    actor: SessionActor<I, X>,
    events: Seq<EventView<C, X>>,
    now: nat,
    utc: UtcTime,
)
    requires
        call_ensures(SessionActor::<I, X>::new, (id, config, start), actor),
        possible(actor@, events),
        after(actor@, events).phase is Waiting,
    ensures
        ({
            let alive = last_pong(crate::config::duration_nanos(start), events);
            let step = after(actor@, events).transition::<C>(EventView::Tick { now, utc });
            &&& step is Next
            &&& step->action is Send
            &&& now > alive + crate::config::duration_nanos(config.timeout)
                ==> step->action->Send_message is Close && step->state.phase is TimingOut
            &&& now <= alive + crate::config::duration_nanos(config.timeout)
                ==> step->action->Send_message is Ping && step->state.phase is Pinging
        }),
{
    only_pongs_keep_alive(actor@, events);
}

/// The handler of the disconnection is called at most once in a run, and as the last action of
/// it: after that the session can only finish.
pub proof fn disconnect_once<I, C, X>(start: SessionView<I, X>, events: Seq<EventView<C, X>>)
    requires
        possible(start, events),
        start.phase !is Disconnecting,
    ensures
        actions(start, events).len() == events.len(),
        forall|i: int|
            0 <= i < events.len() - 1 ==> #[trigger] actions(start, events)[i] !is OnDisconnect,
        after(start, events).phase is Disconnecting <==> events.len() > 0 && actions(
            start,
            events,
        ).last() is OnDisconnect,
    decreases events.len(),
{
    if events.len() > 0 {
        disconnect_once(start, events.drop_last());
        let before = after(start, events.drop_last());
        let done = actions(start, events.drop_last());
        assert(before.phase !is Disconnecting);
        assert(actions(start, events).drop_last() == done);
        assert forall|i: int| 0 <= i < events.len() - 1 implies #[trigger] actions(
            start,
            events,
        )[i] !is OnDisconnect by {
            assert(actions(start, events)[i] == done[i]);
        }
    }
}

/// A session finishes only after the handler of the disconnection was called. The report has the
/// session's own ID, and the outcome that the handler was called with, unless that handler
/// fails: then it has the handler's error.
pub proof fn finish_after_disconnect<I, C, X>(
    start: SessionView<I, X>,
    events: Seq<EventView<C, X>>,
    event: EventView<C, X>,
)
    requires
        possible(start, events),
        start.phase !is Disconnecting,
        after(start, events).phase.accepts(event),
    ensures
        after(start, events).transition(event) is Finished <==> events.len() > 0 && actions(
            start,
            events,
        ).last() is OnDisconnect,
        after(start, events).transition(event) matches StepView::Finished { id, result } ==> {
            &&& id == start.id
            &&& result == match event {
                EventView::Handled { outcome: Err(failure) } => Err(failure.error),
                _ => after(start, events).phase->Disconnecting_result,
            }
        },
{
    disconnect_once(start, events);
    only_pongs_keep_alive(start, events);
}

/// What the handlers are called with, in order.
pub open spec fn handler_calls<C>(actions: Seq<ActionView<C>>) -> Seq<ActionView<C>>
    decreases actions.len(),
{
    if actions.len() == 0 {
        Seq::empty()
    } else {
        let rest = handler_calls(actions.drop_last());
        match actions.last() {
            ActionView::OnText { .. } | ActionView::OnBinary { .. } | ActionView::OnCall { .. } =>
                rest.push(actions.last()),
            _ => rest,
        }
    }
}

/// What there is for the handlers: the text and binary messages of the peer and the calls of the
/// program, in order.
pub open spec fn deliveries<C, X>(events: Seq<EventView<C, X>>) -> Seq<ActionView<C>>
    decreases events.len(),
{
    if events.len() == 0 {
        Seq::empty()
    } else {
        let rest = deliveries(events.drop_last());
        match events.last() {
            EventView::Incoming { message: MessageView::Text(text), .. } => rest.push(
                ActionView::OnText { text },
            ),
            EventView::Incoming { message: MessageView::Binary(bytes), .. } => rest.push(
                ActionView::OnBinary { bytes },
            ),
            EventView::Call { call } => rest.push(ActionView::OnCall { call }),
            _ => rest,
        }
    }
}

/// Every text and binary message of the peer and every call of the program goes to its handler,
/// once, unchanged and in order, and nothing else does: no ping, pong or close message.
pub proof fn handlers_get_all<I, C, X>(start: SessionView<I, X>, events: Seq<EventView<C, X>>)
    requires
        possible(start, events),
    ensures
        handler_calls(actions(start, events)) == deliveries(events),
    decreases events.len(),
{
    if events.len() > 0 {
        handlers_get_all(start, events.drop_last());
        assert(actions(start, events).drop_last() == actions(start, events.drop_last()));
    }
}

/// What the peer is sent, in order.
pub open spec fn sent<C>(actions: Seq<ActionView<C>>) -> Seq<MessageView>
    decreases actions.len(),
{
    if actions.len() == 0 {
        Seq::empty()
    } else {
        let rest = sent(actions.drop_last());
        match actions.last() {
            ActionView::Send { message } => rest.push(message),
            _ => rest,
        }
    }
}

/// The messages of the program, queued or taken from the queue, in order.
pub open spec fn offered<C, X>(events: Seq<EventView<C, X>>) -> Seq<MessageView>
    decreases events.len(),
{
    if events.len() == 0 {
        Seq::empty()
    } else {
        let rest = offered(events.drop_last());
        match events.last() {
            EventView::Outgoing { message } => rest.push(message),
            EventView::Queued { taken: Some(message) } => rest.push(message),
            _ => rest,
        }
    }
}

/// The event brings a message of the program, queued or taken from the queue.
pub open spec fn is_offer<C, X>(event: EventView<C, X>) -> bool {
    event is Outgoing || event matches EventView::Queued { taken: Some(_) }
}

/// What the peer is sent on messages of the program, in order.
pub open spec fn sent_on_offers<C, X>(
    events: Seq<EventView<C, X>>,
    actions: Seq<ActionView<C>>,
) -> Seq<MessageView>
    decreases events.len(),
{
    if events.len() == 0 {
        Seq::empty()
    } else {
        let rest = sent_on_offers(events.drop_last(), actions.drop_last());
        match actions.last() {
            ActionView::Send { message } if is_offer(events.last()) => rest.push(message),
            _ => rest,
        }
    }
}

/// The text and binary messages among messages, in order.
pub open spec fn data_messages(messages: Seq<MessageView>) -> Seq<MessageView>
    decreases messages.len(),
{
    if messages.len() == 0 {
        Seq::empty()
    } else {
        let rest = data_messages(messages.drop_last());
        match messages.last() {
            MessageView::Text(_) | MessageView::Binary(_) => rest.push(messages.last()),
            _ => rest,
        }
    }
}

/// The peer is sent every message of the program, unchanged and in order, and besides them only
/// pings and close messages: the text and binary messages that it is sent are those of the
/// program.
pub proof fn program_messages_are_sent<I, C, X>(
    start: SessionView<I, X>,
    events: Seq<EventView<C, X>>,
)
    requires
        possible(start, events),
    ensures
        actions(start, events).len() == events.len(),
        sent_on_offers(events, actions(start, events)) == offered(events),
        forall|i: int|
            #![trigger actions(start, events)[i]]
            0 <= i < events.len() && !is_offer(events[i]) ==> match actions(start, events)[i] {
                ActionView::Send { message } => message is Ping || message is Close,
                _ => true,
            },
        data_messages(sent(actions(start, events))) == data_messages(offered(events)),
    decreases events.len(),
{
    if events.len() > 0 {
        program_messages_are_sent(start, events.drop_last());
        let earlier = actions(start, events.drop_last());
        let all = actions(start, events);
        assert(all.drop_last() == earlier);
        assert forall|i: int|
            #![trigger all[i]]
            0 <= i < events.len() && !is_offer(events[i]) implies match all[i] {
            ActionView::Send { message } => message is Ping || message is Close,
            _ => true,
        } by {
            if i < events.len() - 1 {
                assert(earlier[i] == all[i]);
                assert(events.drop_last()[i] == events[i]);
            }
        }
        if let ActionView::Send { message } = all.last() {
            let before = sent(earlier);
            assert(sent(all) == before.push(message));
            assert(before.push(message).drop_last() == before);
        }
        if is_offer(events.last()) {
            let before = offered(events.drop_last());
            let message = offered(events).last();
            assert(offered(events) == before.push(message));
            assert(before.push(message).drop_last() == before);
        }
    }
}

/// The peer is sent nothing but messages of the program, pings that carry the time, and the close
/// messages of a session that has timed out or whose handler has failed.
pub proof fn sends_are_accounted_for<I, C, X>(
    state: SessionView<I, X>,
    event: EventView<C, X>,
    message: MessageView,
)
    requires
        state.phase.accepts(event),
        state.transition(event) is Next,
        state.transition(event)->action == (ActionView::<C>::Send { message }),
    ensures
        match event {
            EventView::Outgoing { message: queued } => message == queued,
            EventView::Queued { taken: Some(queued) } => message == queued,
            EventView::Queued { taken: None } => message == MessageView::Close(
                Some(
                    CloseFrameView {
                        code: CloseCode::Error,
                        reason: state.phase->Draining_failure.text,
                    },
                ),
            ),
            EventView::Tick { now, utc } => message == if now > state.last_alive + state.timeout {
                MessageView::Close(
                    Some(
                        CloseFrameView {
                            code: CloseCode::Normal,
                            reason: "client didn't respond to Ping frame"@,
                        },
                    ),
                )
            } else {
                MessageView::Ping(
                    crate::clock::be_bytes((utc.secs * 1_000_000 + utc.nanos / 1000) as i64),
                )
            },
            _ => false,
        },
{
}

/// A session is always in the middle of one thing: it waits, or has the result of one send, of
/// one handler or of one look into the queue to come, and no other event can happen.
pub proof fn one_thing_at_a_time<X>(phase: PhaseView<X>)
    ensures
        phase is Waiting ==> !phase.sends() && !phase.handles() && phase !is Draining,
        phase.sends() ==> phase !is Waiting && !phase.handles() && phase !is Draining,
        phase.handles() ==> phase !is Waiting && !phase.sends() && phase !is Draining,
        phase is Waiting || phase.sends() || phase.handles() || phase is Draining,
{
}

/// A handler's failure, after which the queue holds the given messages and each of them is sent.
pub open spec fn flush_events<C, X>(
    failure: FailureView<X>,
    queue: Seq<MessageView>,
) -> Seq<EventView<C, X>>
    decreases queue.len(),
{
    if queue.len() == 0 {
        seq![EventView::Handled { outcome: Err(failure) }]
    } else {
        flush_events(failure, queue.drop_last()).push(
            EventView::Queued { taken: Some(queue.last()) },
        ).push(EventView::Sent { result: Ok(()) })
    }
}

/// A run with one event more.
proof fn lemma_one_more<I, C, X>(
    start: SessionView<I, X>,
    events: Seq<EventView<C, X>>,
    event: EventView<C, X>,
    state: SessionView<I, X>,
    action: ActionView<C>,
)
    requires
        possible(start, events),
        after(start, events).phase.accepts(event),
        event.datable(),
        after(start, events).transition(event) == (StepView::Next { state, action }),
    ensures
        possible(start, events.push(event)),
        after(start, events.push(event)) == state,
        actions(start, events.push(event)) == actions(start, events).push(action),
        sent(actions(start, events.push(event))) == match action {
            ActionView::Send { message } => sent(actions(start, events)).push(message),
            _ => sent(actions(start, events)),
        },
{
    let longer = events.push(event);
    assert(longer.drop_last() == events);
    assert(longer.last() == event);
    let done = actions(start, events);
    assert(actions(start, longer) == done.push(action));
    assert(done.push(action).drop_last() == done);
    assert(done.push(action).last() == action);
}

proof fn lemma_flush<I, C, X>(
    start: SessionView<I, X>,
    failure: FailureView<X>,
    queue: Seq<MessageView>,
)
    requires
        start.phase is Handling,
    ensures
        possible(start, flush_events::<C, X>(failure, queue)),
        after(start, flush_events::<C, X>(failure, queue)) == (SessionView {
            phase: PhaseView::Draining { failure },
            ..start
        }),
        sent(actions(start, flush_events::<C, X>(failure, queue))) == queue,
    decreases queue.len(),
{
    let draining = SessionView { phase: PhaseView::Draining { failure }, ..start };
    if queue.len() == 0 {
        let nothing = Seq::<EventView<C, X>>::empty();
        let failed = EventView::<C, X>::Handled { outcome: Err(failure) };
        lemma_one_more(start, nothing, failed, draining, ActionView::TakeQueued);
        assert(nothing.push(failed) == flush_events::<C, X>(failure, queue));
        assert(sent(actions(start, nothing)) == queue);
    } else {
        lemma_flush::<I, C, X>(start, failure, queue.drop_last());
        let earlier = flush_events::<C, X>(failure, queue.drop_last());
        let taken = EventView::<C, X>::Queued { taken: Some(queue.last()) };
        let flushing = SessionView { phase: PhaseView::Flushing { failure }, ..start };
        lemma_one_more(
            start,
            earlier,
            taken,
            flushing,
            ActionView::Send { message: queue.last() },
        );
        lemma_one_more(
            start,
            earlier.push(taken),
            EventView::Sent { result: Ok(()) },
            draining,
            ActionView::TakeQueued,
        );
        assert(queue.drop_last().push(queue.last()) == queue);
    }
}

/// When the handler of a message fails, the peer is first sent every message that the program had
/// queued, in order, then a close message with the code for an error and the error's text; the
/// outcome of the session is the error.
pub proof fn failed_handler_drains_queue<I, C, X>(
    start: SessionView<I, X>,
    failure: FailureView<X>,
    queue: Seq<MessageView>,
)
    requires
        start.phase is Handling,
    ensures
        ({
            let events = flush_events::<C, X>(failure, queue).push(
                EventView::Queued { taken: None },
            ).push(EventView::Sent { result: Ok(()) });
            &&& possible(start, events)
            &&& sent(actions(start, events)) == queue.push(
                MessageView::Close(
                    Some(CloseFrameView { code: CloseCode::Error, reason: failure.text }),
                ),
            )
            &&& actions(start, events).last() is OnDisconnect
            &&& after(start, events).phase == (PhaseView::<X>::Disconnecting {
                result: Err(failure.error),
            })
        }),
{
    lemma_flush::<I, C, X>(start, failure, queue);
    let flushed = flush_events::<C, X>(failure, queue);
    let emptied = EventView::<C, X>::Queued { taken: None };
    let close = MessageView::Close(Some(crate::session::model::failure_frame(failure.text)));
    lemma_one_more(
        start,
        flushed,
        emptied,
        SessionView { phase: PhaseView::Failing { error: failure.error }, ..start },
        ActionView::Send { message: close },
    );
    lemma_one_more(
        start,
        flushed.push(emptied),
        EventView::Sent { result: Ok(()) },
        SessionView {
            phase: PhaseView::Disconnecting { result: Err(failure.error) },
            ..start
        },
        ActionView::OnDisconnect,
    );
}

/// A message that cannot be sent ends the session with the error, whatever the message was for.
pub proof fn failed_send_ends_session<I, C, X>(state: SessionView<I, X>, error: X)
    requires
        state.phase.sends(),
    ensures
        state.transition::<C>(EventView::Sent { result: Err(error) }) == (StepView::Next {
            state: SessionView {
                phase: PhaseView::Disconnecting { result: Err(error) },
                ..state
            },
            action: ActionView::<C>::OnDisconnect,
        }),
{
}

/// A close message of the peer ends the session at once, and its frame is the outcome.
pub proof fn peer_close_is_outcome<I, C, X>(
    state: SessionView<I, X>,
    frame: Option<CloseFrameView>,
    now: nat,
    utc: UtcTime,
)
    requires
        state.phase is Waiting,
    ensures
        state.transition::<C>(
            EventView::Incoming { message: MessageView::Close(frame), now, utc },
        ) == (StepView::Next {
            state: SessionView { phase: PhaseView::Disconnecting { result: Ok(frame) }, ..state },
            action: ActionView::<C>::OnDisconnect,
        }),
{
}

/// The end of the connection ends the session without a frame or an error, and a failure of the
/// connection ends it with the error.
pub proof fn lost_connection_is_outcome<I, C, X>(state: SessionView<I, X>, error: X)
    requires
        state.phase is Waiting,
    ensures
        state.transition::<C>(EventView::ConnectionEnded) == (StepView::Next {
            state: SessionView { phase: PhaseView::Disconnecting { result: Ok(None) }, ..state },
            action: ActionView::<C>::OnDisconnect,
        }),
        state.transition::<C>(EventView::ConnectionFailed { error }) == (StepView::Next {
            state: SessionView {
                phase: PhaseView::Disconnecting { result: Err(error) },
                ..state
            },
            action: ActionView::<C>::OnDisconnect,
        }),
{
}

/// A close message of the program ends the session once it is sent, and its frame is the outcome.
pub proof fn own_close_is_outcome<I, C, X>(
    state: SessionView<I, X>,
    frame: Option<CloseFrameView>,
)
    requires
        state.phase is Waiting,
    ensures
        ({
            let events = seq![
                EventView::<C, X>::Outgoing { message: MessageView::Close(frame) },
                EventView::Sent { result: Ok(()) },
            ];
            &&& possible(state, events)
            &&& actions(state, events) == seq![
                ActionView::<C>::Send { message: MessageView::Close(frame) },
                ActionView::<C>::OnDisconnect,
            ]
            &&& after(state, events).phase == (PhaseView::<X>::Disconnecting { result: Ok(frame) })
        }),
{
    let outgoing = EventView::<C, X>::Outgoing { message: MessageView::Close(frame) };
    let events = seq![outgoing, EventView::Sent { result: Ok(()) }];
    reveal_with_fuel(after, 3);
    reveal_with_fuel(actions, 3);
    reveal_with_fuel(possible, 3);
    assert(events.drop_last() == seq![outgoing]);
    assert(seq![outgoing].drop_last() == Seq::<EventView<C, X>>::empty());
}

/// A session that has timed out is over once its close message is sent, without a frame or an
/// error as its outcome.
pub proof fn timeout_outcome<I, C, X>(state: SessionView<I, X>, now: nat, utc: UtcTime)
    requires
        state.phase is Waiting,
        now > state.last_alive + state.timeout,
    ensures
        ({
            let closing = state.transition::<C>(EventView::Tick { now, utc })->state;
            &&& closing.phase.accepts(EventView::<C, X>::Sent { result: Ok(()) })
            &&& closing.transition::<C>(EventView::Sent { result: Ok(()) })
                == (StepView::Next {
                state: SessionView {
                    phase: PhaseView::Disconnecting { result: Ok(None) },
                    ..state
                },
                action: ActionView::<C>::OnDisconnect,
            })
        }),
{
}

/// The handler of a message from the peer has failed in the run, in that way.
pub open spec fn has_failed<C, X>(events: Seq<EventView<C, X>>, failure: FailureView<X>) -> bool {
    exists|i: int|
        1 <= i < events.len() && events[i - 1] is Incoming && #[trigger] events[i] == (EventView::<
            C,
            X,
        >::Handled { outcome: Err(failure) })
}

/// A failure stays in a run that goes on.
proof fn lemma_has_failed<C, X>(events: Seq<EventView<C, X>>, failure: FailureView<X>)
    requires
        events.len() > 0,
        has_failed(events.drop_last(), failure),
    ensures
        has_failed(events, failure),
{
    let earlier = events.drop_last();
    let i = choose|i: int|
        1 <= i < earlier.len() && earlier[i - 1] is Incoming && #[trigger] earlier[i] == (
        EventView::<C, X>::Handled { outcome: Err(failure) });
    assert(events[i] == earlier[i]);
}

/// What a session is in the middle of shows what has happened to it.
proof fn lemma_phase_has_cause<I, C, X>(start: SessionView<I, X>, events: Seq<EventView<C, X>>)
    requires
        start.phase is Waiting,
        possible(start, events),
    ensures
        after(start, events).phase !is Waiting ==> events.len() > 0,
        match after(start, events).phase {
            PhaseView::TimingOut => events.last() matches EventView::Tick { now, .. } && now
                > last_pong(start.last_alive, events.drop_last()) + start.timeout,
            PhaseView::Sending { close: Some(frame) } => events.last() == (
            EventView::<C, X>::Outgoing { message: MessageView::Close(frame) }),
            PhaseView::Calling => events.last() is Call,
            PhaseView::Handling => events.last() is Incoming,
            PhaseView::Draining { failure } => has_failed(events, failure),
            PhaseView::Flushing { failure } => has_failed(events, failure),
            PhaseView::Failing { error } => {
                &&& events.last() == (EventView::<C, X>::Queued { taken: None })
                &&& exists|failure: FailureView<X>| #[trigger]
                    has_failed(events, failure) && failure.error == error
            },
            _ => true,
        },
    decreases events.len(),
{
    if events.len() > 0 {
        let earlier = events.drop_last();
        lemma_phase_has_cause(start, earlier);
        only_pongs_keep_alive(start, earlier);
        match after(start, earlier).phase {
            PhaseView::Handling => {
                assert(events[events.len() - 2] == earlier.last());
                if let EventView::Handled { outcome: Err(failure) } = events[events.len() - 1] {
                    assert(has_failed(events, failure));
                }
            },
            PhaseView::Draining { failure } => lemma_has_failed(events, failure),
            PhaseView::Flushing { failure } => lemma_has_failed(events, failure),
            _ => {},
        }
    }
}

/// Every outcome has its cause in the run. An outcome without an error comes from a close message
/// of the peer or a sent one of the program, with the frame of the outcome, or, without a frame,
/// from the end of the connection or the sent close message of a session that has timed out. An
/// error is that of the connection, of a send, of the handler of a call, or of the handler of a
/// message, after which the queue was emptied and the close message was sent.
pub proof fn outcome_has_cause<I, C, X>(start: SessionView<I, X>, events: Seq<EventView<C, X>>)
    requires
        start.phase is Waiting,
        possible(start, events),
        after(start, events).phase is Disconnecting,
    ensures
        events.len() > 0,
        match after(start, events).phase->Disconnecting_result {
            Ok(frame) => {
                ||| events.last() matches EventView::Incoming { message, .. } && message
                    == MessageView::Close(frame)
                ||| events.last() is ConnectionEnded && frame is None
                ||| {
                    &&& events.last() matches EventView::Sent { result: Ok(_) }
                    &&& events.len() >= 2
                    &&& events[events.len() - 2] == (EventView::<C, X>::Outgoing {
                        message: MessageView::Close(frame),
                    })
                }
                ||| {
                    &&& events.last() matches EventView::Sent { result: Ok(_) }
                    &&& events.len() >= 2
                    &&& frame is None
                    &&& events[events.len() - 2] matches EventView::Tick { now, .. }
                    &&& now > last_pong(start.last_alive, events.take(events.len() - 2))
                        + start.timeout
                }
            },
            Err(error) => {
                ||| events.last() == (EventView::<C, X>::ConnectionFailed { error })
                ||| events.last() == (EventView::<C, X>::Sent { result: Err(error) })
                ||| {
                    &&& events.last() matches EventView::Handled { outcome: Err(failure) }
                    &&& failure.error == error
                    &&& events.len() >= 2
                    &&& events[events.len() - 2] is Call
                }
                ||| {
                    &&& events.last() matches EventView::Sent { result: Ok(_) }
                    &&& events.len() >= 2
                    &&& events[events.len() - 2] == (EventView::<C, X>::Queued { taken: None })
                    &&& exists|failure: FailureView<X>| #[trigger]
                        has_failed(events, failure) && failure.error == error
                }
            },
        },
{
    let earlier = events.drop_last();
    lemma_phase_has_cause(start, earlier);
    if events.len() >= 2 {
        assert(earlier.last() == events[events.len() - 2]);
        assert(earlier.drop_last() == events.take(events.len() - 2));
    }
    if let PhaseView::Failing { error } = after(start, earlier).phase {
        let failure = choose|failure: FailureView<X>| #[trigger]
            has_failed(earlier, failure) && failure.error == error;
        lemma_has_failed(events, failure);
    }
}

} // verus!
