//! The loop that accepts connections.
//!
//! [`AcceptLoop`] decides; it performs nothing. It is given an [`AcceptEvent`], and answers with
//! an [`AcceptAction`] to perform, the result of which is the next event. The loop has no end: a
//! connection that fails on the way is passed over.
use vstd::prelude::*;

verus! {

/// What happens to the loop: the result of its last action.
#[derive(Debug, PartialEq, Eq)]
pub enum AcceptEvent<S, A, N> {
    /// A peer has connected.
    Connected { stream: S, address: A },
    /// A peer could not connect.
    ConnectFailed,
    /// The handshake with the peer is done.
    Established { connection: N },
    /// The handshake with the peer has failed.
    HandshakeFailed,
    /// The server has taken the connection, or refused it.
    Registered,
}

/// What is to be done for the loop.
#[derive(Debug, PartialEq, Eq)]
pub enum AcceptAction<S, A, N> {
    /// Wait for a peer to connect.
    Accept,
    /// Do the handshake with the peer.
    Handshake { stream: S },
    /// Hand the connection to the server.
    Register { connection: N, address: A },
}

/// What the loop is in the middle of.
#[derive(Debug, PartialEq, Eq)]
pub enum AcceptLoop<A> {
    /// Waiting for a peer to connect.
    Listening,
    /// The handshake with the peer at the address.
    Handshaking { address: A },
    /// Handing a connection to the server.
    Registering,
}

impl<A> AcceptLoop<A> {
    /// The event is a result of what the loop is in the middle of.
    pub open spec fn expects<S, N>(self, event: AcceptEvent<S, A, N>) -> bool {
        match self {
            AcceptLoop::Listening => event is Connected || event is ConnectFailed,
            AcceptLoop::Handshaking { .. } => event is Established || event is HandshakeFailed,
            AcceptLoop::Registering => event is Registered,
        }
    }

    /// What follows an event: a peer that connects is shaken hands with, a connection that is
    /// established goes to the server under the peer's address, and after that, and after a
    /// failure, the loop waits for the next peer.
    pub open spec fn transition<S, N>(self, event: AcceptEvent<S, A, N>) -> (
        AcceptLoop<A>,
        AcceptAction<S, A, N>,
    )
        recommends
            self.expects(event),
    {
        match event {
            AcceptEvent::Connected { stream, address } => (
                AcceptLoop::Handshaking { address },
                AcceptAction::Handshake { stream },
            ),
            AcceptEvent::Established { connection } => (
                AcceptLoop::Registering,
                AcceptAction::Register { connection, address: self->address },
            ),
            _ => (AcceptLoop::Listening, AcceptAction::Accept),
        }
    }

    /// The loop at its start, and its first action.
    pub fn start<S, N>() -> (first: (AcceptLoop<A>, AcceptAction<S, A, N>))
        ensures
            first == (AcceptLoop::<A>::Listening, AcceptAction::<S, A, N>::Accept),
    {
        (AcceptLoop::Listening, AcceptAction::Accept)
    }

    /// Whether an event is a result of what the loop is in the middle of.
    pub fn is_expected<S, N>(&self, event: &AcceptEvent<S, A, N>) -> (expected: bool)
        ensures
            expected == self.expects(*event),
    {
        match (self, event) {
            (AcceptLoop::Listening, AcceptEvent::Connected { .. }) => true,
            (AcceptLoop::Listening, AcceptEvent::ConnectFailed) => true,
            (AcceptLoop::Handshaking { .. }, AcceptEvent::Established { .. }) => true,
            (AcceptLoop::Handshaking { .. }, AcceptEvent::HandshakeFailed) => true,
            (AcceptLoop::Registering, AcceptEvent::Registered) => true,
            _ => false,
        }
    }

    /// What follows an event.
    pub fn step<S, N>(self, event: AcceptEvent<S, A, N>) -> (next: (
        AcceptLoop<A>,
        AcceptAction<S, A, N>,
    ))
        requires
            self.expects(event),
        ensures
            next == self.transition(event),
    {
        match event {
            AcceptEvent::Connected { stream, address } => (
                AcceptLoop::Handshaking { address },
                AcceptAction::Handshake { stream },
            ),
            AcceptEvent::Established { connection } => match self {
                AcceptLoop::Handshaking { address } => (
                    AcceptLoop::Registering,
                    AcceptAction::Register { connection, address },
                ),
                _ => (AcceptLoop::Listening, AcceptAction::Accept),
            },
            _ => (AcceptLoop::Listening, AcceptAction::Accept),
        }
    }
}

/// The state of the loop after a run of events from its start.
pub open spec fn after<S, A, N>(events: Seq<AcceptEvent<S, A, N>>) -> AcceptLoop<A>
    decreases events.len(),
{
    if events.len() == 0 {
        AcceptLoop::Listening
    } else {
        after(events.drop_last()).transition(events.last()).0
    }
}

/// The events can happen one after the other, from the start of the loop.
pub open spec fn possible<S, A, N>(events: Seq<AcceptEvent<S, A, N>>) -> bool
    decreases events.len(),
{
    events.len() == 0 || {
        &&& possible(events.drop_last())
        &&& after(events.drop_last()).expects(events.last())
    }
}

/// What the loop is in the middle of shows in its last event.
proof fn lemma_last_event<S, A, N>(events: Seq<AcceptEvent<S, A, N>>)
    requires
        possible(events),
    ensures
        after(events) is Handshaking <==> events.len() > 0 && events.last() is Connected,
        after(events) matches AcceptLoop::Handshaking { address } ==> events.last()->address
            == address,
        after(events) is Registering <==> events.len() > 0 && events.last() is Established,
{
}

/// Every connection that is established goes to the server, with the address of the peer that
/// connected right before.
pub proof fn connections_keep_their_address<S, A, N>(events: Seq<AcceptEvent<S, A, N>>)
    requires
        possible(events),
        events.len() > 0,
        events.last() is Established,
    ensures
        events.len() >= 2,
        events[events.len() - 2] is Connected,
        after(events.drop_last()).transition(events.last()).1 == (AcceptAction::<S, A, N>::Register {
            connection: events.last()->connection,
            address: events[events.len() - 2]->address,
        }),
{
    lemma_last_event(events.drop_last());
    assert(events.drop_last().last() == events[events.len() - 2]);
}

/// The actions of a run of events, one for each event.
pub open spec fn actions<S, A, N>(events: Seq<AcceptEvent<S, A, N>>) -> Seq<AcceptAction<S, A, N>>
    decreases events.len(),
{
    if events.len() == 0 {
        Seq::empty()
    } else {
        actions(events.drop_last()).push(after(events.drop_last()).transition(events.last()).1)
    }
}

/// The peers that handshakes are made with, in order.
pub open spec fn handshakes<S, A, N>(actions: Seq<AcceptAction<S, A, N>>) -> Seq<S>
    decreases actions.len(),
{
    if actions.len() == 0 {
        Seq::empty()
    } else {
        let rest = handshakes(actions.drop_last());
        match actions.last() {
            AcceptAction::Handshake { stream } => rest.push(stream),
            _ => rest,
        }
    }
}

/// The peers that connect, in order.
pub open spec fn connected<S, A, N>(events: Seq<AcceptEvent<S, A, N>>) -> Seq<S>
    decreases events.len(),
{
    if events.len() == 0 {
        Seq::empty()
    } else {
        let rest = connected(events.drop_last());
        match events.last() {
            AcceptEvent::Connected { stream, .. } => rest.push(stream),
            _ => rest,
        }
    }
}

/// The connections that go to the server, each with an address, in order.
pub open spec fn registrations<S, A, N>(actions: Seq<AcceptAction<S, A, N>>) -> Seq<(N, A)>
    decreases actions.len(),
{
    if actions.len() == 0 {
        Seq::empty()
    } else {
        let rest = registrations(actions.drop_last());
        match actions.last() {
            AcceptAction::Register { connection, address } => rest.push((connection, address)),
            _ => rest,
        }
    }
}

/// The connections that are established, each with the address of the peer that connected right
/// before, in order.
pub open spec fn established<S, A, N>(events: Seq<AcceptEvent<S, A, N>>) -> Seq<(N, A)>
    decreases events.len(),
{
    if events.len() == 0 {
        Seq::empty()
    } else {
        let rest = established(events.drop_last());
        match events.last() {
            AcceptEvent::Established { connection } => rest.push(
                (connection, events[events.len() - 2]->address),
            ),
            _ => rest,
        }
    }
}

/// Over a whole run, a handshake is made with every peer that connects, once and in order, and the
/// server is given every connection that is established, once, in order and with the address of
/// its own peer, and no other, whatever failed in between.
pub proof fn all_established_are_registered<S, A, N>(events: Seq<AcceptEvent<S, A, N>>)
    requires
        possible(events),
    ensures
        handshakes(actions(events)) == connected(events),
        registrations(actions(events)) == established(events),
    decreases events.len(),
{
    if events.len() > 0 {
        all_established_are_registered(events.drop_last());
        assert(actions(events).drop_last() == actions(events.drop_last()));
        if events.last() is Established {
            connections_keep_their_address(events);
        }
    }
}

/// A failure, of a peer to connect or of a handshake, only brings the loop back to waiting for the
/// next peer; nothing goes to the server.
pub proof fn failures_are_passed_over<S, A, N>(
    state: AcceptLoop<A>,
    failure: AcceptEvent<S, A, N>,
)
    requires
        state.expects(failure),
        failure is ConnectFailed || failure is HandshakeFailed,
    ensures
        state.transition(failure) == (
            AcceptLoop::<A>::Listening,
            AcceptAction::<S, A, N>::Accept,
        ),
{
}

/// The loop starts with waiting for a peer.
pub proof fn loop_starts_listening<S, A, N>(first: (AcceptLoop<A>, AcceptAction<S, A, N>))
    requires
        call_ensures(AcceptLoop::<A>::start::<S, N>, (), first),
    ensures
        first.0 is Listening,
        first.1 is Accept,
{
}

/// While the loop waits for a peer it expects one or a failure, in a handshake its end or its
/// failure, and while the server takes a connection that it is done; never anything else. What it
/// expects can be given to it.
pub proof fn expected_events<S, A, N>(
    state: AcceptLoop<A>,
    event: AcceptEvent<S, A, N>,
    expected: bool,
)
    requires
        call_ensures(AcceptLoop::<A>::is_expected::<S, N>, (&state, &event), expected),
    ensures
        expected <==> match event {
            AcceptEvent::Connected { .. } => state is Listening,
            AcceptEvent::ConnectFailed => state is Listening,
            AcceptEvent::Established { .. } => state is Handshaking,
            AcceptEvent::HandshakeFailed => state is Handshaking,
            AcceptEvent::Registered => state is Registering,
        },
        expected ==> call_requires(AcceptLoop::<A>::step::<S, N>, (state, event)),
{
}

/// A peer that connects is shaken hands with, and its address is kept; a connection that is
/// established goes to the server with that address; and after anything else the loop waits for
/// the next peer.
pub proof fn loop_answers<S, A, N>(
    state: AcceptLoop<A>,
    event: AcceptEvent<S, A, N>,
    next: AcceptLoop<A>,
    action: AcceptAction<S, A, N>,
)
    requires
        state.expects(event),
        call_ensures(AcceptLoop::<A>::step::<S, N>, (state, event), (next, action)),
    ensures
        (next, action) == state.transition(event),
        match event {
            AcceptEvent::Connected { stream, address } => {
                &&& next matches AcceptLoop::Handshaking { address: kept }
                &&& kept == address
                &&& action matches AcceptAction::Handshake { stream: given }
                &&& given == stream
            },
            AcceptEvent::Established { connection } => {
                &&& next is Registering
                &&& state matches AcceptLoop::Handshaking { address }
                &&& action matches AcceptAction::Register { connection: given, address: under }
                &&& given == connection
                &&& under == address
            },
            AcceptEvent::ConnectFailed => next is Listening && action is Accept,
            AcceptEvent::HandshakeFailed => next is Listening && action is Accept,
            AcceptEvent::Registered => next is Listening && action is Accept,
        },
{
}

/// Whatever the loop is told to do, it is left so that it expects the result.
pub proof fn actions_leave_their_state<S, A, N>(
    state: AcceptLoop<A>,
    event: AcceptEvent<S, A, N>,
)
    requires
        state.expects(event),
    ensures
        state.transition(event).1 is Accept <==> state.transition(event).0 is Listening,
        state.transition(event).1 is Handshake <==> state.transition(event).0 is Handshaking,
        state.transition(event).1 is Register <==> state.transition(event).0 is Registering,
{
}

} // verus!
