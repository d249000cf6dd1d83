//! The server side of the SOCKS5 exchange, as a state machine.
//!
//! The machine never touches a socket. Its caller reads and writes, dials the
//! destination, and reports each outcome as an event; the machine answers
//! with the next state and the one action to perform. A connection moves
//! from the greeting to the request, waits for the dial, and ends either
//! established or rejected.

use vstd::prelude::*;
use vstd::slice::slice_subrange;

use crate::address::{decoded, parse_target_address, TargetDescriptor, TargetView};
use crate::error::TunnelError;

verus! {

/// The protocol version that every greeting and request must carry.
pub const SOCKS_VERSION: u8 = 5;

/// The CONNECT command, the only one served.
pub const CMD_CONNECT: u8 = 1;

/// Largest message read in one piece during the exchange.
pub const HANDSHAKE_BUFFER_SIZE: usize = 4096;

/// Where a connection stands in the exchange.
#[derive(Clone, Copy, Debug, PartialEq, Eq, Structural)]
pub enum HandshakeState {
    /// Nothing received yet; the client's greeting is expected.
    AwaitGreeting,
    /// The greeting was answered; the client's request is expected.
    AwaitRequest,
    /// The request named a destination; the outcome of dialing it is
    /// expected.
    AwaitDial,
    /// The destination is connected and the client was told so. Terminal.
    Established,
    /// The connection was given up. Terminal.
    Rejected,
}

/// What the caller reports to the machine.
#[derive(Clone, Debug, PartialEq, Eq)]
pub enum HandshakeEvent {
    /// The client sent these bytes (none at all when it closed).
    Received(Vec<u8>),
    /// The destination asked for is connected.
    DialSucceeded,
    /// The destination asked for could not be reached.
    DialFailed,
    /// Reading from or writing to the client failed.
    TransportFailed,
}

/// What the machine asks of the caller.
#[derive(Clone, Debug, PartialEq, Eq)]
pub enum HandshakeAction {
    /// Send these bytes to the client, then read its next message.
    Reply(Vec<u8>),
    /// Connect to this destination and report the outcome.
    Dial(TargetDescriptor),
    /// Send these bytes to the client, then relay between client and
    /// destination.
    ReplyAndRelay(Vec<u8>),
    /// Close the connection without sending anything.
    Close(TunnelError),
    /// Nothing: the exchange had already ended.
    Halt,
}

/// The mathematical value of a `HandshakeEvent`.
pub enum EventView {
    Received(Seq<u8>),
    DialSucceeded,
    DialFailed,
    TransportFailed,
}

/// The mathematical value of a `HandshakeAction`.
pub enum ActionView {
    Reply(Seq<u8>),
    Dial(TargetView),
    ReplyAndRelay(Seq<u8>),
    Close(TunnelError),
    Halt,
}

impl View for HandshakeEvent {
    type V = EventView;

    open spec fn view(&self) -> EventView {
        match self {
            HandshakeEvent::Received(bytes) => EventView::Received(bytes@),
            HandshakeEvent::DialSucceeded => EventView::DialSucceeded,
            HandshakeEvent::DialFailed => EventView::DialFailed,
            HandshakeEvent::TransportFailed => EventView::TransportFailed,
        }
    }
}

impl View for HandshakeAction {
    type V = ActionView;

    open spec fn view(&self) -> ActionView {
        match self {
            HandshakeAction::Reply(bytes) => ActionView::Reply(bytes@),
            HandshakeAction::Dial(target) => ActionView::Dial(target@),
            HandshakeAction::ReplyAndRelay(bytes) => ActionView::ReplyAndRelay(bytes@),
            HandshakeAction::Close(error) => ActionView::Close(*error),
            HandshakeAction::Halt => ActionView::Halt,
        }
    }
}

impl HandshakeState {
    /// Whether the exchange has ended, one way or the other.
    pub open spec fn terminal(self) -> bool {
        self == HandshakeState::Established || self == HandshakeState::Rejected
    }

    /// Whether the exchange has ended, one way or the other.
    pub fn is_terminal(&self) -> (ended: bool)
        ensures
            ended == self.terminal(),
    {
        match self {
            HandshakeState::Established => true,
            HandshakeState::Rejected => true,
            _ => false,
        }
    }
}

impl ActionView {
    /// The bytes that an action sends to the client.
    pub open spec fn sent(self) -> Seq<u8> {
        match self {
            ActionView::Reply(bytes) => bytes,
            ActionView::ReplyAndRelay(bytes) => bytes,
            _ => Seq::<u8>::empty(),
        }
    }
}

/// The answer to an accepted greeting: the version, and the method "no
/// authentication required".
pub open spec fn greeting_reply_bytes() -> Seq<u8> {
    seq![5u8, 0u8]
}

/// The answer to a request whose destination is connected. The bound address
/// in it is always `0.0.0.0:0`; the real one is not reported.
pub open spec fn success_reply_bytes() -> Seq<u8> {
    seq![5u8, 0u8, 0u8, 1u8, 0u8, 0u8, 0u8, 0u8, 0u8, 0u8]
}

/// Whether a first message is an acceptable greeting: the right version and
/// at least one method on offer.
pub open spec fn greeting_accepted(bytes: Seq<u8>) -> bool {
    bytes.len() >= 2 && bytes[0] == SOCKS_VERSION && bytes[1] > 0
}

/// What a request asks for. The version is checked first, then the command;
/// the destination descriptor starts behind the reserved third byte.
pub open spec fn request_target(bytes: Seq<u8>) -> Result<TargetView, TunnelError> {
    if bytes.len() < 2 || bytes[0] != SOCKS_VERSION {
        Err(TunnelError::MalformedRequest)
    } else if bytes[1] != CMD_CONNECT {
        Err(TunnelError::UnsupportedCommand)
    } else if bytes.len() < 3 {
        Err(TunnelError::MalformedRequest)
    } else {
        decoded(bytes.skip(3))
    }
}

/// The machine: the state after an event, and the action it calls for.
///
/// An ended exchange stays as it is. Before that, a transport failure or a
/// failed dial rejects the connection, and so does any event that the state
/// does not expect.
pub open spec fn transition(state: HandshakeState, event: EventView) -> (
    HandshakeState,
    ActionView,
) {
    if state.terminal() {
        (state, ActionView::Halt)
    } else {
        match event {
            EventView::TransportFailed => (
                HandshakeState::Rejected,
                ActionView::Close(TunnelError::IoError),
            ),
            EventView::DialFailed => (
                HandshakeState::Rejected,
                ActionView::Close(TunnelError::DialFailure),
            ),
            EventView::DialSucceeded => if state == HandshakeState::AwaitDial {
                (HandshakeState::Established, ActionView::ReplyAndRelay(success_reply_bytes()))
            } else {
                (HandshakeState::Rejected, ActionView::Close(TunnelError::DialFailure))
            },
            EventView::Received(bytes) => if state == HandshakeState::AwaitGreeting {
                if greeting_accepted(bytes) {
                    (HandshakeState::AwaitRequest, ActionView::Reply(greeting_reply_bytes()))
                } else {
                    (HandshakeState::Rejected, ActionView::Close(TunnelError::MalformedRequest))
                }
            } else if state == HandshakeState::AwaitRequest {
                match request_target(bytes) {
                    Ok(target) => (HandshakeState::AwaitDial, ActionView::Dial(target)),
                    Err(error) => (HandshakeState::Rejected, ActionView::Close(error)),
                }
            } else {
                (HandshakeState::Rejected, ActionView::Close(TunnelError::MalformedRequest))
            },
        }
    }
}

/// The bytes that answer an accepted greeting.
pub fn greeting_reply() -> (reply: Vec<u8>)
    ensures
        reply@ == greeting_reply_bytes(),
{
    let reply: Vec<u8> = vec![5, 0];
    assert(reply@ =~= greeting_reply_bytes());
    reply
}

/// The bytes that tell the client its destination is connected.
pub fn success_reply() -> (reply: Vec<u8>)
    ensures
        reply@ == success_reply_bytes(),
{
    let reply: Vec<u8> = vec![5, 0, 0, 1, 0, 0, 0, 0, 0, 0];
    assert(reply@ =~= success_reply_bytes());
    reply
}

/// Checks a first message: version 5 and a method count above zero.
pub fn accepts_greeting(bytes: &[u8]) -> (accepted: bool)
    ensures
        accepted == greeting_accepted(bytes@),
{
    bytes.len() >= 2 && bytes[0] == SOCKS_VERSION && bytes[1] > 0
}

/// Reads a request: checks the version and the command, then decodes the
/// destination.
pub fn parse_request(bytes: &[u8]) -> (result: Result<TargetDescriptor, TunnelError>)
    ensures
        match result {
            Ok(target) => request_target(bytes@) == Ok::<TargetView, TunnelError>(target@),
            Err(error) => request_target(bytes@) == Err::<TargetView, TunnelError>(error),
        },
{
    if bytes.len() < 2 || bytes[0] != SOCKS_VERSION {
        return Err(TunnelError::MalformedRequest);
    }
    if bytes[1] != CMD_CONNECT {
        return Err(TunnelError::UnsupportedCommand);
    }
    if bytes.len() < 3 {
        return Err(TunnelError::MalformedRequest);
    }
    parse_target_address(slice_subrange(bytes, 3, bytes.len()))
}

/// Advances the exchange by one event.
pub fn handshake_step(state: HandshakeState, event: HandshakeEvent) -> (next: (
    HandshakeState,
    HandshakeAction,
))
    ensures
        (next.0, next.1@) == transition(state, event@),
{
    if state.is_terminal() {
        return (state, HandshakeAction::Halt);
    }
    match event {
        HandshakeEvent::TransportFailed => (
            HandshakeState::Rejected,
            HandshakeAction::Close(TunnelError::IoError),
        ),
        HandshakeEvent::DialFailed => (
            HandshakeState::Rejected,
            HandshakeAction::Close(TunnelError::DialFailure),
        ),
        HandshakeEvent::DialSucceeded => match state {
            HandshakeState::AwaitDial => (
                HandshakeState::Established,
                HandshakeAction::ReplyAndRelay(success_reply()),
            ),
            _ => (HandshakeState::Rejected, HandshakeAction::Close(TunnelError::DialFailure)),
        },
        HandshakeEvent::Received(bytes) => match state {
            HandshakeState::AwaitGreeting => if accepts_greeting(bytes.as_slice()) {
                (HandshakeState::AwaitRequest, HandshakeAction::Reply(greeting_reply()))
            } else {
                (HandshakeState::Rejected, HandshakeAction::Close(TunnelError::MalformedRequest))
            },
            HandshakeState::AwaitRequest => match parse_request(bytes.as_slice()) {
                Ok(target) => (HandshakeState::AwaitDial, HandshakeAction::Dial(target)),
                Err(error) => (HandshakeState::Rejected, HandshakeAction::Close(error)),
            },
            _ => (HandshakeState::Rejected, HandshakeAction::Close(TunnelError::MalformedRequest)),
        },
    }
}

/// The state that a sequence of events leads to, one transition after
/// another.
pub open spec fn run(state: HandshakeState, events: Seq<EventView>) -> HandshakeState
    decreases events.len(),
{
    if events.len() == 0 {
        state
    } else {
        run(transition(state, events[0]).0, events.drop_first())
    }
}

/// All the bytes sent to the client over a sequence of events, in order.
pub open spec fn sent_over(state: HandshakeState, events: Seq<EventView>) -> Seq<u8>
    decreases events.len(),
{
    if events.len() == 0 {
        Seq::<u8>::empty()
    } else {
        transition(state, events[0]).1.sent() + sent_over(
            transition(state, events[0]).0,
            events.drop_first(),
        )
    }
}

/// A greeting that is too short, carries another version than 5 or offers no
/// method rejects the connection, and nothing is sent to the client.
pub proof fn bad_greeting_is_rejected(bytes: Seq<u8>)
    requires
        bytes.len() < 2 || bytes[0] != SOCKS_VERSION || bytes[1] == 0,
    ensures
        transition(HandshakeState::AwaitGreeting, EventView::Received(bytes)) == (
            HandshakeState::Rejected,
            ActionView::Close(TunnelError::MalformedRequest),
        ),
        transition(HandshakeState::AwaitGreeting, EventView::Received(bytes)).1.sent().len() == 0,
{
}

/// A greeting with version 5 and at least one method is answered with
/// exactly `[5, 0]`, and the request is awaited.
pub proof fn accepted_greeting_is_answered(bytes: Seq<u8>)
    requires
        bytes.len() >= 2,
        bytes[0] == SOCKS_VERSION,
        bytes[1] > 0,
    ensures
        transition(HandshakeState::AwaitGreeting, EventView::Received(bytes)) == (
            HandshakeState::AwaitRequest,
            ActionView::Reply(seq![5u8, 0u8]),
        ),
{
}

/// Once established or rejected, an exchange stays so and asks for nothing
/// more, whatever is reported to it.
pub proof fn ended_exchange_stays(state: HandshakeState, event: EventView)
    requires
        state.terminal(),
    ensures
        transition(state, event) == (state, ActionView::Halt),
{
}

/// A transition that rejects the connection sends nothing to the client.
pub proof fn rejection_sends_nothing(state: HandshakeState, event: EventView)
    requires
        transition(state, event).0 == HandshakeState::Rejected,
    ensures
        transition(state, event).1.sent().len() == 0,
{
}

/// The success reply is sent on one transition only: when the dial that the
/// machine asked for succeeds. That transition, and no other, establishes
/// the connection.
pub proof fn success_reply_needs_dial(state: HandshakeState, event: EventView)
    ensures
        transition(state, event).1 is ReplyAndRelay <==> state == HandshakeState::AwaitDial
            && event == EventView::DialSucceeded,
        transition(state, event).1 is ReplyAndRelay ==> transition(state, event) == (
            HandshakeState::Established,
            ActionView::ReplyAndRelay(success_reply_bytes()),
        ),
        !state.terminal() && transition(state, event).0 == HandshakeState::Established
            ==> transition(state, event).1 is ReplyAndRelay,
{
}

/// A CONNECT request for an IPv6 destination rejects the connection as
/// unsupported.
pub proof fn ipv6_request_is_rejected(bytes: Seq<u8>)
    requires
        bytes.len() >= 4,
        bytes[0] == SOCKS_VERSION,
        bytes[1] == CMD_CONNECT,
        bytes[3] == crate::address::ATYP_IPV6,
    ensures
        transition(HandshakeState::AwaitRequest, EventView::Received(bytes)) == (
            HandshakeState::Rejected,
            ActionView::Close(TunnelError::UnsupportedAddressKind),
        ),
{
    assert(bytes.skip(3)[0] == bytes[3]);
}

/// No sequence of events leads out of an ended exchange, and none makes it
/// send anything.
pub proof fn run_keeps_ended(state: HandshakeState, events: Seq<EventView>)
    requires
        state.terminal(),
    ensures
        run(state, events) == state,
        sent_over(state, events).len() == 0,
    decreases events.len(),
{
    if events.len() > 0 {
        run_keeps_ended(state, events.drop_first());
    }
}

/// An accepted greeting, a CONNECT request with a decodable destination and
/// a successful dial, in this order, establish the connection; the client is
/// sent `[5, 0]` and then the success reply, and nothing else.
pub proof fn full_exchange_establishes(greeting: Seq<u8>, request: Seq<u8>)
    requires
        greeting_accepted(greeting),
        request_target(request) is Ok,
    ensures
        run(
            HandshakeState::AwaitGreeting,
            seq![
                EventView::Received(greeting),
                EventView::Received(request),
                EventView::DialSucceeded,
            ],
        ) == HandshakeState::Established,
        sent_over(
            HandshakeState::AwaitGreeting,
            seq![
                EventView::Received(greeting),
                EventView::Received(request),
                EventView::DialSucceeded,
            ],
        ) == greeting_reply_bytes() + success_reply_bytes(),
{
    let events = seq![
        EventView::Received(greeting),
        EventView::Received(request),
        EventView::DialSucceeded,
    ];
    let after_request = seq![EventView::Received(request), EventView::DialSucceeded];
    let after_dial = seq![EventView::DialSucceeded];
    assert(events.drop_first() =~= after_request);
    assert(after_request.drop_first() =~= after_dial);
    assert(after_dial.drop_first() =~= Seq::<EventView>::empty());
    reveal_with_fuel(run, 4);
    reveal_with_fuel(sent_over, 4);
    assert(sent_over(HandshakeState::AwaitGreeting, events) =~= greeting_reply_bytes()
        + success_reply_bytes());
}

/// A connection is established by the full exchange only: whatever sequence
/// of events ends established began with an accepted greeting, then a
/// CONNECT request with a decodable destination, then a successful dial.
pub proof fn established_needs_full_exchange(events: Seq<EventView>)
    requires
        run(HandshakeState::AwaitGreeting, events) == HandshakeState::Established,
    ensures
        events.len() >= 3,
        events[0] matches EventView::Received(greeting) && greeting_accepted(greeting),
        events[1] matches EventView::Received(request) && request_target(request) is Ok,
        events[2] == EventView::DialSucceeded,
{
    let start = HandshakeState::AwaitGreeting;
    assert(events.len() >= 1);
    let first = transition(start, events[0]).0;
    let rest1 = events.drop_first();
    assert(run(start, events) == run(first, rest1));
    if first != HandshakeState::AwaitRequest {
        run_keeps_ended(first, rest1);
    }
    assert(rest1.len() >= 1);
    let second = transition(first, rest1[0]).0;
    let rest2 = rest1.drop_first();
    assert(run(first, rest1) == run(second, rest2));
    if second != HandshakeState::AwaitDial {
        run_keeps_ended(second, rest2);
    }
    assert(rest2.len() >= 1);
    let third = transition(second, rest2[0]).0;
    let rest3 = rest2.drop_first();
    assert(run(second, rest2) == run(third, rest3));
    if third != HandshakeState::Established {
        run_keeps_ended(third, rest3);
    }
    assert(rest1[0] == events[1]);
    assert(rest2[0] == events[2]);
}

/// What a client can ever be sent. Whatever the events, the bytes sent over
/// an exchange are `[5, 0]` followed by the success reply if the connection
/// is established, `[5, 0]` alone if only the greeting was accepted, and
/// nothing otherwise: a failed exchange shows the client no reply to its
/// request.
pub proof fn client_sees_only_fixed_replies(events: Seq<EventView>)
    ensures
        sent_over(HandshakeState::AwaitGreeting, events) == if run(
            HandshakeState::AwaitGreeting,
            events,
        ) == HandshakeState::Established {
            greeting_reply_bytes() + success_reply_bytes()
        } else if events.len() > 0 && transition(HandshakeState::AwaitGreeting, events[0]).0
            == HandshakeState::AwaitRequest {
            greeting_reply_bytes()
        } else {
            Seq::<u8>::empty()
        },
{
    let start = HandshakeState::AwaitGreeting;
    let none = Seq::<u8>::empty();
    if events.len() > 0 {
        let (first, answer1) = transition(start, events[0]);
        let rest1 = events.drop_first();
        assert(run(start, events) == run(first, rest1));
        assert(sent_over(start, events) == answer1.sent() + sent_over(first, rest1));
        if first != HandshakeState::AwaitRequest {
            run_keeps_ended(first, rest1);
            assert(sent_over(start, events) =~= none);
        } else if rest1.len() == 0 {
            assert(sent_over(start, events) =~= greeting_reply_bytes());
        } else {
            let (second, answer2) = transition(first, rest1[0]);
            let rest2 = rest1.drop_first();
            assert(run(first, rest1) == run(second, rest2));
            assert(sent_over(first, rest1) == answer2.sent() + sent_over(second, rest2));
            if second != HandshakeState::AwaitDial {
                run_keeps_ended(second, rest2);
                assert(sent_over(start, events) =~= greeting_reply_bytes());
            } else if rest2.len() == 0 {
                assert(sent_over(start, events) =~= greeting_reply_bytes());
            } else {
                let (third, answer3) = transition(second, rest2[0]);
                let rest3 = rest2.drop_first();
                assert(run(second, rest2) == run(third, rest3));
                assert(sent_over(second, rest2) == answer3.sent() + sent_over(third, rest3));
                run_keeps_ended(third, rest3);
                if third == HandshakeState::Established {
                    assert(sent_over(start, events) =~= greeting_reply_bytes()
                        + success_reply_bytes());
                } else {
                    assert(sent_over(start, events) =~= greeting_reply_bytes());
                }
            }
        }
    }
}

} // verus!
