use socks_tunnel::agent::{agent_step, AgentAction, AgentEvent, AgentState};
use socks_tunnel::error::TunnelError;
use socks_tunnel::handshake::{handshake_step, HandshakeAction, HandshakeEvent, HandshakeState};
use socks_tunnel::relay::{Direction, PumpAction, PumpEvent, Relay};

/// What a client of the server sees and causes: the bytes sent to it, the
/// destinations dialed, and how the exchange ended.
struct Outcome {
    sent: Vec<u8>,
    dialed: Vec<(String, u16)>,
    state: HandshakeState,
    error: Option<TunnelError>,
}

/// Serves one client that sends `messages` in turn, with a dialer that
/// succeeds or fails as `reachable` says.
fn serve(messages: &[&[u8]], reachable: bool) -> Outcome {
    let mut outcome = Outcome {
        sent: Vec::new(),
        dialed: Vec::new(),
        state: HandshakeState::AwaitGreeting,
        error: None,
    };
    let mut incoming = messages.iter();
    let mut receive = move || match incoming.next() {
        Some(message) => HandshakeEvent::Received(message.to_vec()),
        None => HandshakeEvent::Received(Vec::new()),
    };
    let mut event = receive();
    loop {
        let (state, action) = handshake_step(outcome.state, event);
        outcome.state = state;
        event = match action {
            HandshakeAction::Reply(bytes) => {
                outcome.sent.extend_from_slice(&bytes);
                receive()
            }
            HandshakeAction::Dial(target) => {
                outcome.dialed.push((target.host(), target.port()));
                if reachable {
                    HandshakeEvent::DialSucceeded
                } else {
                    HandshakeEvent::DialFailed
                }
            }
            HandshakeAction::ReplyAndRelay(bytes) => {
                outcome.sent.extend_from_slice(&bytes);
                return outcome;
            }
            HandshakeAction::Close(error) => {
                outcome.error = Some(error);
                return outcome;
            }
            HandshakeAction::Halt => return outcome,
        };
    }
}

#[test]
fn server_answers_greeting() {
    let outcome = serve(&[&[5, 1, 0]], true);
    assert_eq!(&outcome.sent[..2], &[5, 0]);
}

#[test]
fn server_connects_and_confirms() {
    let outcome = serve(&[&[5, 1, 0], &[5, 1, 0, 1, 93, 184, 216, 34, 0, 80]], true);
    assert_eq!(outcome.dialed, vec![("93.184.216.34".to_string(), 80)]);
    assert_eq!(outcome.sent, vec![5, 0, 5, 0, 0, 1, 0, 0, 0, 0, 0, 0]);
    assert_eq!(outcome.state, HandshakeState::Established);
    assert_eq!(outcome.error, None);
}

#[test]
fn server_gives_up_when_destination_is_unreachable() {
    let outcome = serve(&[&[5, 1, 0], &[5, 1, 0, 1, 93, 184, 216, 34, 0, 80]], false);
    assert_eq!(outcome.dialed, vec![("93.184.216.34".to_string(), 80)]);
    assert_eq!(outcome.sent, vec![5, 0]);
    assert_eq!(outcome.state, HandshakeState::Rejected);
    assert_eq!(outcome.error, Some(TunnelError::DialFailure));
}

#[test]
fn server_refuses_ipv6_without_success_reply() {
    let mut request = vec![5, 1, 0, 4];
    request.extend_from_slice(&[0x20, 0x01, 0x0d, 0xb8, 0, 0, 0, 0, 0, 0, 0, 0, 0, 0, 0, 1]);
    request.extend_from_slice(&[0, 80]);
    let outcome = serve(&[&[5, 1, 0], &request], true);
    assert!(outcome.dialed.is_empty());
    assert_eq!(outcome.sent, vec![5, 0]);
    assert_eq!(outcome.state, HandshakeState::Rejected);
    assert_eq!(outcome.error, Some(TunnelError::UnsupportedAddressKind));
}

#[test]
fn server_gives_up_when_client_closes_after_greeting() {
    let outcome = serve(&[&[5, 1, 0]], true);
    assert!(outcome.dialed.is_empty());
    assert_eq!(outcome.sent, vec![5, 0]);
    assert_eq!(outcome.state, HandshakeState::Rejected);
    assert_eq!(outcome.error, Some(TunnelError::MalformedRequest));
}

#[test]
fn server_sends_nothing_to_a_client_of_another_protocol() {
    let outcome = serve(&[b"GET / HTTP/1.1\r\n\r\n"], true);
    assert!(outcome.sent.is_empty());
    assert!(outcome.dialed.is_empty());
    assert_eq!(outcome.state, HandshakeState::Rejected);
    assert_eq!(outcome.error, Some(TunnelError::MalformedRequest));
}

#[test]
fn relayed_bytes_arrive_unmodified_after_connect() {
    let outcome = serve(&[&[5, 1, 0], &[5, 1, 0, 3, 4, b'h', b'o', b's', b't', 0x1f, 0x90]], true);
    assert_eq!(outcome.dialed, vec![("host".to_string(), 8080)]);
    assert_eq!(outcome.state, HandshakeState::Established);

    let mut relay = Relay::new();
    let mut at_destination = Vec::new();
    let mut at_client = Vec::new();
    let from_client: Vec<u8> = (0..=255u8).collect();
    let from_destination: Vec<u8> = (0..=255u8).rev().collect();
    for (up, down) in from_client.chunks(100).zip(from_destination.chunks(100)) {
        if let PumpAction::Write(bytes) = relay.step(Direction::NearToFar, PumpEvent::Chunk(up.to_vec())) {
            at_destination.extend_from_slice(&bytes);
        }
        if let PumpAction::Write(bytes) = relay.step(Direction::FarToNear, PumpEvent::Chunk(down.to_vec())) {
            at_client.extend_from_slice(&bytes);
        }
        assert_eq!(relay.step(Direction::NearToFar, PumpEvent::Written), PumpAction::Read);
        assert_eq!(relay.step(Direction::FarToNear, PumpEvent::Written), PumpAction::Read);
    }
    assert_eq!(at_destination, from_client);
    assert_eq!(at_client, from_destination);
    assert_eq!(relay.step(Direction::NearToFar, PumpEvent::Chunk(Vec::new())), PumpAction::Stop);
    assert!(relay.is_finished());
}

#[test]
fn agent_passes_the_first_exchange_through() {
    let (state, action) =
        agent_step(AgentState::AwaitGreeting, AgentEvent::ClientData(vec![5, 1, 0]));
    assert_eq!(action, AgentAction::Tunnel(vec![5, 1, 0]));
    let answer = serve(&[&[5, 1, 0]], true).sent;
    let (state, action) = agent_step(state, AgentEvent::ServerData(answer[..2].to_vec()));
    assert_eq!(state, AgentState::Relaying);
    assert_eq!(action, AgentAction::ReplyAndRelay(vec![5, 0]));
}

#[test]
fn agent_reports_a_failed_tunnel() {
    let (state, _) = agent_step(AgentState::AwaitGreeting, AgentEvent::ClientData(vec![5, 1, 0]));
    let (state, action) = agent_step(state, AgentEvent::Failed(TunnelError::TlsHandshakeError));
    assert_eq!(state, AgentState::Closed);
    assert_eq!(action, AgentAction::Close(TunnelError::TlsHandshakeError));
}
