//! The server: what is done for connections, disconnections and calls.
//!
//! [`ServerActor`] decides; it performs nothing. It is given a [`ServerEvent`], and answers with a
//! [`ServerAction`] to perform. A handler that is called is followed by the event that brings its
//! result. The server has no end: an error of a handler is reported, and the server goes on.
use crate::session::Disconnected;
use crate::socket::CloseFrame;
use vstd::prelude::*;

verus! {

/// What happens to a server.
#[derive(Debug, PartialEq, Eq)]
pub enum ServerEvent<N, I, C, X> {
    /// A new connection.
    Connection { connection: N },
    /// The end of a session.
    Disconnection { disconnected: Disconnected<I, X> },
    /// A call of the program.
    Call { call: C },
    /// The handler of connections is done: it has made a session with an ID, or refuses.
    Accepted { result: Result<I, X> },
    /// The handler of disconnections or of calls is done.
    Handled { outcome: Result<(), X> },
}

/// What is to be done for a server.
#[derive(Debug, PartialEq, Eq)]
pub enum ServerAction<N, I, C, X> {
    /// Call the handler of connections.
    OnConnect { connection: N },
    /// Call the handler of disconnections, with the ID of the session that has ended.
    OnDisconnect,
    /// Call the handler of calls.
    OnCall { call: C },
    /// Answer the connection with the ID of its session.
    Answer { id: I },
    /// Report which session has ended, and how.
    ReportEnd { id: I, result: Result<Option<CloseFrame>, X> },
    /// Report the error of a handler. A connection that is refused gets no answer.
    ReportError { error: X },
    /// Report the error of the handler of calls.
    ReportCallError { error: X },
    /// Nothing.
    Wait,
}

/// What a server is in the middle of.
#[derive(Debug, PartialEq, Eq)]
pub enum ServerActor<I, X> {
    /// Nothing: it waits for an event.
    Waiting,
    /// The handler of connections runs.
    Connecting,
    /// The handler of disconnections runs, for the session of that ID, which has ended so.
    Disconnecting { id: I, result: Result<Option<CloseFrame>, X> },
    /// The handler of calls runs.
    Calling,
}

impl<I, X> ServerActor<I, X> {
    /// The event is one that can happen now: the result of the handler that runs or, where none
    /// does, anything but a result.
    pub open spec fn expects<N, C>(self, event: ServerEvent<N, I, C, X>) -> bool {
        match event {
            ServerEvent::Accepted { .. } => self is Connecting,
            ServerEvent::Handled { .. } => self is Disconnecting || self is Calling,
            _ => self is Waiting,
        }
    }

    /// What follows an event.
    pub open spec fn transition<N, C>(self, event: ServerEvent<N, I, C, X>) -> (
        ServerActor<I, X>,
        ServerAction<N, I, C, X>,
    )
        recommends
            self.expects(event),
    {
        match event {
            ServerEvent::Connection { connection } => (
                ServerActor::Connecting,
                ServerAction::OnConnect { connection },
            ),
            ServerEvent::Disconnection { disconnected } => (
                ServerActor::Disconnecting { id: disconnected.id, result: disconnected.result },
                ServerAction::OnDisconnect,
            ),
            ServerEvent::Call { call } => (ServerActor::Calling, ServerAction::OnCall { call }),
            ServerEvent::Accepted { result: Ok(id) } => (
                ServerActor::Waiting,
                ServerAction::Answer { id },
            ),
            ServerEvent::Accepted { result: Err(error) } => (
                ServerActor::Waiting,
                ServerAction::ReportError { error },
            ),
            ServerEvent::Handled { outcome: Ok(_) } => (
                ServerActor::Waiting,
                match self {
                    ServerActor::Disconnecting { id, result } => ServerAction::ReportEnd { id, result },
                    _ => ServerAction::Wait,
                },
            ),
            ServerEvent::Handled { outcome: Err(error) } => (
                ServerActor::Waiting,
                match self {
                    ServerActor::Disconnecting { .. } => ServerAction::ReportError { error },
                    _ => ServerAction::ReportCallError { error },
                },
            ),
        }
    }

    /// A server at its start: it waits.
    pub fn new() -> (actor: Self)
        ensures
            actor is Waiting,
    {
        ServerActor::Waiting
    }

    /// The ID of the session that has ended, while its end is handled: what the handler of
    /// disconnections is called with.
    pub fn ended(&self) -> (ended: Option<&I>)
        ensures
            ended is Some <==> self is Disconnecting,
            ended matches Some(id) ==> *id == self->Disconnecting_id,
    {
        match self {
            ServerActor::Disconnecting { id, .. } => Some(id),
            _ => None,
        }
    }

    /// Whether an event is one that can happen now.
    pub fn is_expected<N, C>(&self, event: &ServerEvent<N, I, C, X>) -> (expected: bool)
        ensures
            expected == self.expects(*event),
    {
        match event {
            ServerEvent::Accepted { .. } => match self {
                ServerActor::Connecting => true,
                _ => false,
            },
            ServerEvent::Handled { .. } => match self {
                ServerActor::Disconnecting { .. } | ServerActor::Calling => true,
                _ => false,
            },
            _ => match self {
                ServerActor::Waiting => true,
                _ => false,
            },
        }
    }

    /// What follows an event.
    pub fn step<N, C>(self, event: ServerEvent<N, I, C, X>) -> (next: (
        ServerActor<I, X>,
        ServerAction<N, I, C, X>,
    ))
        requires
            self.expects(event),
        ensures
            next == self.transition(event),
    {
        match event {
            ServerEvent::Connection { connection } => (
                ServerActor::Connecting,
                ServerAction::OnConnect { connection },
            ),
            ServerEvent::Disconnection { disconnected } => {
                let Disconnected { id, result } = disconnected;
                (ServerActor::Disconnecting { id, result }, ServerAction::OnDisconnect)
            },
            ServerEvent::Call { call } => (ServerActor::Calling, ServerAction::OnCall { call }),
            ServerEvent::Accepted { result: Ok(id) } => (
                ServerActor::Waiting,
                ServerAction::Answer { id },
            ),
            ServerEvent::Accepted { result: Err(error) } => (
                ServerActor::Waiting,
                ServerAction::ReportError { error },
            ),
            ServerEvent::Handled { outcome: Ok(_) } => match self {
                ServerActor::Disconnecting { id, result } => (
                    ServerActor::Waiting,
                    ServerAction::ReportEnd { id, result },
                ),
                _ => (ServerActor::Waiting, ServerAction::Wait),
            },
            ServerEvent::Handled { outcome: Err(error) } => match self {
                ServerActor::Disconnecting { .. } => (
                    ServerActor::Waiting,
                    ServerAction::ReportError { error },
                ),
                _ => (ServerActor::Waiting, ServerAction::ReportCallError { error }),
            },
        }
    }
}

/// The state of a server after a run of events from its start.
pub open spec fn after<N, I, C, X>(events: Seq<ServerEvent<N, I, C, X>>) -> ServerActor<I, X>
    decreases events.len(),
{
    if events.len() == 0 {
        ServerActor::Waiting
    } else {
        after(events.drop_last()).transition(events.last()).0
    }
}

/// The actions of a run of events, one for each event.
pub open spec fn actions<N, I, C, X>(events: Seq<ServerEvent<N, I, C, X>>) -> Seq<
    ServerAction<N, I, C, X>,
>
    decreases events.len(),
{
    if events.len() == 0 {
        Seq::empty()
    } else {
        actions(events.drop_last()).push(after(events.drop_last()).transition(events.last()).1)
    }
}

/// The events can happen one after the other, from the start of a server.
pub open spec fn possible<N, I, C, X>(events: Seq<ServerEvent<N, I, C, X>>) -> bool
    decreases events.len(),
{
    events.len() == 0 || {
        &&& possible(events.drop_last())
        &&& after(events.drop_last()).expects(events.last())
    }
}

/// A call of a handler, with what it is called with.
pub enum HandlerCall<N, I, C> {
    Connect { connection: N },
    Disconnect { id: I },
    Call { call: C },
}

/// What the handlers are called with in a run of events, in order.
pub open spec fn handler_calls<N, I, C, X>(events: Seq<ServerEvent<N, I, C, X>>) -> Seq<
    HandlerCall<N, I, C>,
>
    decreases events.len(),
{
    if events.len() == 0 {
        Seq::empty()
    } else {
        let rest = handler_calls(events.drop_last());
        let (state, action) = after(events.drop_last()).transition(events.last());
        match action {
            ServerAction::OnConnect { connection } => rest.push(
                HandlerCall::Connect { connection },
            ),
            ServerAction::OnDisconnect => rest.push(
                HandlerCall::Disconnect { id: state->Disconnecting_id },
            ),
            ServerAction::OnCall { call } => rest.push(HandlerCall::Call { call }),
            _ => rest,
        }
    }
}

/// What there is for the handlers: connections, disconnections and calls, in order.
pub open spec fn deliveries<N, I, C, X>(events: Seq<ServerEvent<N, I, C, X>>) -> Seq<
    HandlerCall<N, I, C>,
>
    decreases events.len(),
{
    if events.len() == 0 {
        Seq::empty()
    } else {
        let rest = deliveries(events.drop_last());
        match events.last() {
            ServerEvent::Connection { connection } => rest.push(
                HandlerCall::Connect { connection },
            ),
            ServerEvent::Disconnection { disconnected } => rest.push(
                HandlerCall::Disconnect { id: disconnected.id },
            ),
            ServerEvent::Call { call } => rest.push(HandlerCall::Call { call }),
            _ => rest,
        }
    }
}

/// Every connection, disconnection and call goes to its handler, once, unchanged and in order,
/// whatever the handlers returned before, and the handlers are called for nothing else.
pub proof fn handlers_get_all<N, I, C, X>(events: Seq<ServerEvent<N, I, C, X>>)
    requires
        possible(events),
    ensures
        handler_calls(events) == deliveries(events),
    decreases events.len(),
{
    if events.len() > 0 {
        handlers_get_all(events.drop_last());
    }
}

/// A server is never stopped: after the result of any handler, an error too, it waits for the
/// next event.
pub proof fn server_goes_on<N, I, C, X>(events: Seq<ServerEvent<N, I, C, X>>)
    requires
        possible(events),
        events.len() > 0,
        events.last() is Accepted || events.last() is Handled,
    ensures
        after(events) is Waiting,
{
}

/// A result follows right after what its handler was called for: that of the handler of
/// connections after a connection, any other after a disconnection or a call. So the end of a
/// session is reported with the ID and the outcome that the session ended with.
pub proof fn results_follow_their_cause<N, I, C, X>(events: Seq<ServerEvent<N, I, C, X>>)
    requires
        possible(events),
        events.len() > 0,
    ensures
        events.last() is Accepted ==> events.len() >= 2 && events[events.len() - 2] is Connection,
        events.last() is Handled ==> events.len() >= 2 && (events[events.len() - 2] is Disconnection
            || events[events.len() - 2] is Call),
        actions(events).last() matches ServerAction::ReportEnd { id, result } ==> events.len() >= 2
            && events[events.len() - 2] == (ServerEvent::<N, I, C, X>::Disconnection {
            disconnected: Disconnected { id, result },
        }),
{
    if events.len() >= 2 {
        assert(events.drop_last().last() == events[events.len() - 2]);
    }
}

/// A connection is answered with an ID exactly where the handler of connections has made a session
/// with that ID; an error of the handler leaves it without an answer.
pub proof fn answer_is_session_id<N, I, C, X>(
    state: ServerActor<I, X>,
    event: ServerEvent<N, I, C, X>,
    id: I,
)
    requires
        state.expects(event),
    ensures
        state.transition(event).1 == (ServerAction::<N, I, C, X>::Answer { id }) <==> event == (
        ServerEvent::<N, I, C, X>::Accepted { result: Ok(id) }),
{
}

/// A server starts with waiting.
pub proof fn server_starts_waiting<I, X>(actor: ServerActor<I, X>)
    requires
        call_ensures(ServerActor::<I, X>::new, (), actor),
    ensures
        actor is Waiting,
{
}

/// While the end of a session is handled, the server tells the ID of that session, and otherwise
/// none.
pub proof fn told_end<I, X>(actor: &ServerActor<I, X>, ended: Option<&I>)
    requires
        call_ensures(ServerActor::<I, X>::ended, (actor,), ended),
    ensures
        match *actor {
            ServerActor::Disconnecting { id, .. } => ended matches Some(told) && *told == id,
            _ => ended is None,
        },
{
}

/// A server that waits expects connections, disconnections and calls, and one whose handler runs
/// expects the result of that handler; neither expects anything else. What it expects can be given
/// to it.
pub proof fn expected_events<N, I, C, X>(
    actor: ServerActor<I, X>,
    event: ServerEvent<N, I, C, X>,
    expected: bool,
)
    requires
        call_ensures(ServerActor::<I, X>::is_expected::<N, C>, (&actor, &event), expected),
    ensures
        expected <==> match actor {
            ServerActor::Waiting => event is Connection || event is Disconnection || event is Call,
            ServerActor::Connecting => event is Accepted,
            ServerActor::Disconnecting { .. } => event is Handled,
            ServerActor::Calling => event is Handled,
        },
        expected ==> call_requires(ServerActor::<I, X>::step::<N, C>, (actor, event)),
{
}

/// What a server answers. A connection, a disconnection and a call go to their handlers. A new
/// session is answered with its ID, and the end of a session is reported with its ID and its
/// outcome once it is handled; a call that is handled needs nothing more. The error of a handler is
/// reported. After any result the server waits.
pub proof fn server_answers<N, I, C, X>(
    actor: ServerActor<I, X>,
    event: ServerEvent<N, I, C, X>,
    next: ServerActor<I, X>,
    action: ServerAction<N, I, C, X>,
)
    requires
        actor.expects(event),
        call_ensures(ServerActor::<I, X>::step::<N, C>, (actor, event), (next, action)),
    ensures
        (next, action) == actor.transition(event),
        match event {
            ServerEvent::Connection { connection } => {
                &&& next is Connecting
                &&& action matches ServerAction::OnConnect { connection: given }
                &&& given == connection
            },
            ServerEvent::Disconnection { disconnected } => {
                &&& next matches ServerActor::Disconnecting { id, result }
                &&& id == disconnected.id
                &&& result == disconnected.result
                &&& action is OnDisconnect
            },
            ServerEvent::Call { call } => {
                &&& next is Calling
                &&& action matches ServerAction::OnCall { call: given }
                &&& given == call
            },
            ServerEvent::Accepted { result: Ok(id) } => {
                &&& next is Waiting
                &&& action matches ServerAction::Answer { id: told }
                &&& told == id
            },
            ServerEvent::Accepted { result: Err(error) } => {
                &&& next is Waiting
                &&& action matches ServerAction::ReportError { error: told }
                &&& told == error
            },
            ServerEvent::Handled { outcome: Ok(_) } => {
                &&& next is Waiting
                &&& actor matches ServerActor::Disconnecting { id, result } ==> {
                    &&& action matches ServerAction::ReportEnd { id: told, result: how }
                    &&& told == id
                    &&& how == result
                }
                &&& actor is Calling ==> action is Wait
            },
            ServerEvent::Handled { outcome: Err(error) } => {
                &&& next is Waiting
                &&& actor is Disconnecting ==> {
                    &&& action matches ServerAction::ReportError { error: told }
                    &&& told == error
                }
                &&& actor is Calling ==> {
                    &&& action matches ServerAction::ReportCallError { error: told }
                    &&& told == error
                }
            },
        },
{
}

/// Over a run, the result of a handler is answered by what it was called for. A session's end that
/// was handled is reported with the ID and the outcome that it ended with; any error of a handler
/// is reported.
pub proof fn results_are_answered<N, I, C, X>(events: Seq<ServerEvent<N, I, C, X>>)
    requires
        possible(events),
        events.len() >= 2,
    ensures
        match (events[events.len() - 2], events.last()) {
            (
                ServerEvent::Connection { .. },
                ServerEvent::Accepted { result: Ok(id) },
            ) => actions(events).last() == (ServerAction::<N, I, C, X>::Answer { id }),
            (
                ServerEvent::Connection { .. },
                ServerEvent::Accepted { result: Err(error) },
            ) => actions(events).last() == (ServerAction::<N, I, C, X>::ReportError { error }),
            (
                ServerEvent::Disconnection { disconnected },
                ServerEvent::Handled { outcome: Ok(_) },
            ) => actions(events).last() == (ServerAction::<N, I, C, X>::ReportEnd {
                id: disconnected.id,
                result: disconnected.result,
            }),
            (
                ServerEvent::Disconnection { .. },
                ServerEvent::Handled { outcome: Err(error) },
            ) => actions(events).last() == (ServerAction::<N, I, C, X>::ReportError { error }),
            (
                ServerEvent::Call { .. },
                ServerEvent::Handled { outcome: Ok(_) },
            ) => actions(events).last() is Wait,
            (
                ServerEvent::Call { .. },
                ServerEvent::Handled { outcome: Err(error) },
            ) => actions(events).last() == (ServerAction::<N, I, C, X>::ReportCallError { error }),
            _ => true,
        },
{
    assert(events.drop_last().last() == events[events.len() - 2]);
}

} // verus!
