//! The agent side of a connection, as a state machine.
//!
//! The agent does not interpret SOCKS5 beyond recognising the version byte.
//! It passes the client's first message through the tunnel as it is, passes
//! the server's first answer back as it is, and then relays. Opening the
//! tunnel, reading and writing are the caller's part; the machine says which
//! comes next.

use vstd::prelude::*;

use crate::error::TunnelError;
use crate::handshake::SOCKS_VERSION;

verus! {

/// Where a client's connection to the agent stands.
#[derive(Clone, Copy, Debug, PartialEq, Eq, Structural)]
pub enum AgentState {
    /// Nothing received yet; the client's first message is expected.
    AwaitGreeting,
    /// The first message went into the tunnel; the server's first answer is
    /// expected.
    AwaitReply,
    /// The answer went back to the client; bytes are relayed from now on.
    /// Terminal.
    Relaying,
    /// The connection was given up. Terminal.
    Closed,
}

/// What the caller reports to the machine.
#[derive(Clone, Debug, PartialEq, Eq)]
pub enum AgentEvent {
    /// The client sent these bytes (none at all when it closed).
    ClientData(Vec<u8>),
    /// The server sent these bytes through the tunnel.
    ServerData(Vec<u8>),
    /// Opening the tunnel, reading or writing failed in this way.
    Failed(TunnelError),
}

/// What the machine asks of the caller.
#[derive(Clone, Debug, PartialEq, Eq)]
pub enum AgentAction {
    /// Open the tunnel to the server, send these bytes through it, and read
    /// the server's first answer.
    Tunnel(Vec<u8>),
    /// Send these bytes to the client, then relay between client and tunnel.
    ReplyAndRelay(Vec<u8>),
    /// Close the connection.
    Close(TunnelError),
    /// Nothing: the machine had already ended.
    Halt,
}

/// The mathematical value of an `AgentEvent`.
pub enum AgentEventView {
    ClientData(Seq<u8>),
    ServerData(Seq<u8>),
    Failed(TunnelError),
}

/// The mathematical value of an `AgentAction`.
pub enum AgentActionView {
    Tunnel(Seq<u8>),
    ReplyAndRelay(Seq<u8>),
    Close(TunnelError),
    Halt,
}

impl View for AgentEvent {
    type V = AgentEventView;

    open spec fn view(&self) -> AgentEventView {
        match self {
            AgentEvent::ClientData(bytes) => AgentEventView::ClientData(bytes@),
            AgentEvent::ServerData(bytes) => AgentEventView::ServerData(bytes@),
            AgentEvent::Failed(error) => AgentEventView::Failed(*error),
        }
    }
}

impl View for AgentAction {
    type V = AgentActionView;

    open spec fn view(&self) -> AgentActionView {
        match self {
            AgentAction::Tunnel(bytes) => AgentActionView::Tunnel(bytes@),
            AgentAction::ReplyAndRelay(bytes) => AgentActionView::ReplyAndRelay(bytes@),
            AgentAction::Close(error) => AgentActionView::Close(*error),
            AgentAction::Halt => AgentActionView::Halt,
        }
    }
}

impl AgentState {
    /// Whether the machine has ended: the connection relays or is closed.
    pub open spec fn terminal(self) -> bool {
        self == AgentState::Relaying || self == AgentState::Closed
    }

    /// Whether the machine has ended: the connection relays or is closed.
    pub fn is_terminal(&self) -> (ended: bool)
        ensures
            ended == self.terminal(),
    {
        match self {
            AgentState::Relaying => true,
            AgentState::Closed => true,
            _ => false,
        }
    }
}

/// Whether a first message looks like a SOCKS5 greeting: it starts with the
/// version byte.
pub open spec fn greeting_like(bytes: Seq<u8>) -> bool {
    bytes.len() >= 1 && bytes[0] == SOCKS_VERSION
}

/// The machine: the state after an event, and the action it calls for.
///
/// An ended machine stays as it is. Before that, a failure closes the
/// connection with the error reported, and data from the side that is not
/// awaited closes it as malformed.
pub open spec fn agent_transition(state: AgentState, event: AgentEventView) -> (
    AgentState,
    AgentActionView,
) {
    if state.terminal() {
        (state, AgentActionView::Halt)
    } else {
        match event {
            AgentEventView::Failed(error) => (AgentState::Closed, AgentActionView::Close(error)),
            AgentEventView::ClientData(bytes) => if state == AgentState::AwaitGreeting
                && greeting_like(bytes) {
                (AgentState::AwaitReply, AgentActionView::Tunnel(bytes))
            } else {
                (AgentState::Closed, AgentActionView::Close(TunnelError::MalformedRequest))
            },
            AgentEventView::ServerData(bytes) => if state == AgentState::AwaitReply {
                (AgentState::Relaying, AgentActionView::ReplyAndRelay(bytes))
            } else {
                (AgentState::Closed, AgentActionView::Close(TunnelError::MalformedRequest))
            },
        }
    }
}

/// Checks whether a first message starts with the SOCKS5 version byte.
pub fn looks_like_greeting(bytes: &[u8]) -> (like: bool)
    ensures
        like == greeting_like(bytes@),
{
    bytes.len() >= 1 && bytes[0] == SOCKS_VERSION
}

/// Advances the agent's side of a connection by one event.
pub fn agent_step(state: AgentState, event: AgentEvent) -> (next: (AgentState, AgentAction))
    ensures
        (next.0, next.1@) == agent_transition(state, event@),
{
    if state.is_terminal() {
        return (state, AgentAction::Halt);
    }
    match event {
        AgentEvent::Failed(error) => (AgentState::Closed, AgentAction::Close(error)),
        AgentEvent::ClientData(bytes) => match state {
            AgentState::AwaitGreeting => if looks_like_greeting(bytes.as_slice()) {
                (AgentState::AwaitReply, AgentAction::Tunnel(bytes))
            } else {
                (AgentState::Closed, AgentAction::Close(TunnelError::MalformedRequest))
            },
            _ => (AgentState::Closed, AgentAction::Close(TunnelError::MalformedRequest)),
        },
        AgentEvent::ServerData(bytes) => match state {
            AgentState::AwaitReply => (AgentState::Relaying, AgentAction::ReplyAndRelay(bytes)),
            _ => (AgentState::Closed, AgentAction::Close(TunnelError::MalformedRequest)),
        },
    }
}

/// A first message that starts with the version byte goes into the tunnel
/// exactly as it came.
pub proof fn greeting_is_tunnelled_verbatim(bytes: Seq<u8>)
    requires
        bytes.len() >= 1,
        bytes[0] == SOCKS_VERSION,
    ensures
        agent_transition(AgentState::AwaitGreeting, AgentEventView::ClientData(bytes)) == (
            AgentState::AwaitReply,
            AgentActionView::Tunnel(bytes),
        ),
{
}

/// A first message that is empty or starts with another byte closes the
/// connection; no tunnel is opened for it.
pub proof fn other_traffic_is_dropped(bytes: Seq<u8>)
    requires
        bytes.len() == 0 || bytes[0] != SOCKS_VERSION,
    ensures
        agent_transition(AgentState::AwaitGreeting, AgentEventView::ClientData(bytes)) == (
            AgentState::Closed,
            AgentActionView::Close(TunnelError::MalformedRequest),
        ),
{
}

/// The server's first answer goes back to the client exactly as it came,
/// and relaying starts.
pub proof fn reply_is_returned_verbatim(bytes: Seq<u8>)
    ensures
        agent_transition(AgentState::AwaitReply, AgentEventView::ServerData(bytes)) == (
            AgentState::Relaying,
            AgentActionView::ReplyAndRelay(bytes),
        ),
{
}

/// A failure before relaying closes the connection with the error reported.
pub proof fn failure_closes_connection(state: AgentState, error: TunnelError)
    requires
        !state.terminal(),
    ensures
        agent_transition(state, AgentEventView::Failed(error)) == (
            AgentState::Closed,
            AgentActionView::Close(error),
        ),
{
}

/// Once relaying or closed, the machine stays so and asks for nothing more.
pub proof fn ended_agent_stays(state: AgentState, event: AgentEventView)
    requires
        state.terminal(),
    ensures
        agent_transition(state, event) == (state, AgentActionView::Halt),
{
}

} // verus!
