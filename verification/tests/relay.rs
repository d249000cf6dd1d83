use socks_tunnel::relay::{
    pump_step, Direction, PumpAction, PumpEvent, PumpState, Relay, RELAY_BUFFER_SIZE,
};

/// Feeds one direction with the given chunks, each written out in full, and
/// then with the end of the source. Returns what was handed to the sink.
fn transfer(relay: &mut Relay, direction: Direction, chunks: &[&[u8]]) -> Vec<u8> {
    let mut arrived = Vec::new();
    for chunk in chunks {
        match relay.step(direction, PumpEvent::Chunk(chunk.to_vec())) {
            PumpAction::Write(bytes) => arrived.extend_from_slice(&bytes),
            other => panic!("expected a write, got {:?}", other),
        }
        assert_eq!(relay.step(direction, PumpEvent::Written), PumpAction::Read);
    }
    assert_eq!(relay.step(direction, PumpEvent::Chunk(Vec::new())), PumpAction::Stop);
    arrived
}

#[test]
fn chunk_is_written_out_verbatim() {
    let (state, action) = pump_step(PumpState::Reading, PumpEvent::Chunk(vec![1, 2, 3]));
    assert_eq!(state, PumpState::Writing);
    assert_eq!(action, PumpAction::Write(vec![1, 2, 3]));
    let (state, action) = pump_step(state, PumpEvent::Written);
    assert_eq!(state, PumpState::Reading);
    assert_eq!(action, PumpAction::Read);
}

#[test]
fn full_buffer_is_written_out_verbatim() {
    let chunk: Vec<u8> = (0..RELAY_BUFFER_SIZE).map(|i| (i % 251) as u8).collect();
    let (state, action) = pump_step(PumpState::Reading, PumpEvent::Chunk(chunk.clone()));
    assert_eq!(state, PumpState::Writing);
    assert_eq!(action, PumpAction::Write(chunk));
    assert_eq!(RELAY_BUFFER_SIZE, 4096);
}

#[test]
fn empty_read_stops_the_pump() {
    let (state, action) = pump_step(PumpState::Reading, PumpEvent::Chunk(Vec::new()));
    assert_eq!(state, PumpState::Stopped);
    assert_eq!(action, PumpAction::Stop);
}

#[test]
fn read_failure_stops_the_pump() {
    let (state, action) = pump_step(PumpState::Reading, PumpEvent::ReadFailed);
    assert_eq!(state, PumpState::Stopped);
    assert_eq!(action, PumpAction::Stop);
}

#[test]
fn write_failure_stops_the_pump() {
    let (state, action) = pump_step(PumpState::Writing, PumpEvent::WriteFailed);
    assert_eq!(state, PumpState::Stopped);
    assert_eq!(action, PumpAction::Stop);
}

#[test]
fn unexpected_report_stops_the_pump() {
    let (state, action) = pump_step(PumpState::Reading, PumpEvent::Written);
    assert_eq!((state, action), (PumpState::Stopped, PumpAction::Stop));
    let (state, action) = pump_step(PumpState::Writing, PumpEvent::Chunk(vec![1]));
    assert_eq!((state, action), (PumpState::Stopped, PumpAction::Stop));
}

#[test]
fn stopped_pump_stays_stopped() {
    for event in [
        PumpEvent::Chunk(vec![1, 2]),
        PumpEvent::Chunk(Vec::new()),
        PumpEvent::ReadFailed,
        PumpEvent::Written,
        PumpEvent::WriteFailed,
    ] {
        let (state, action) = pump_step(PumpState::Stopped, event);
        assert_eq!(state, PumpState::Stopped);
        assert_eq!(action, PumpAction::Stop);
    }
}

#[test]
fn fresh_relay_reads_in_both_directions() {
    let relay = Relay::new();
    assert_eq!(relay.pump(Direction::NearToFar), PumpState::Reading);
    assert_eq!(relay.pump(Direction::FarToNear), PumpState::Reading);
    assert!(!relay.is_finished());
}

#[test]
fn one_way_transfer_arrives_in_order() {
    let mut relay = Relay::new();
    let arrived = transfer(&mut relay, Direction::NearToFar, &[b"hel", b"lo", b" ", b"world"]);
    assert_eq!(arrived, b"hello world");
    assert!(relay.is_finished());
    assert_eq!(relay.pump(Direction::NearToFar), PumpState::Stopped);
    assert_eq!(relay.pump(Direction::FarToNear), PumpState::Reading);
}

#[test]
fn source_that_closes_at_once_finishes_the_relay() {
    let mut relay = Relay::new();
    let arrived = transfer(&mut relay, Direction::FarToNear, &[]);
    assert!(arrived.is_empty());
    assert!(relay.is_finished());
}

#[test]
fn immediate_read_failure_finishes_the_relay() {
    let mut relay = Relay::new();
    assert_eq!(relay.step(Direction::NearToFar, PumpEvent::ReadFailed), PumpAction::Stop);
    assert!(relay.is_finished());
    assert_eq!(relay.pump(Direction::FarToNear), PumpState::Reading);
}

#[test]
fn finished_relay_abandons_the_other_direction() {
    let mut relay = Relay::new();
    assert_eq!(
        relay.step(Direction::FarToNear, PumpEvent::Chunk(vec![7, 8])),
        PumpAction::Write(vec![7, 8])
    );
    assert_eq!(relay.step(Direction::NearToFar, PumpEvent::ReadFailed), PumpAction::Stop);
    assert!(relay.is_finished());
    assert_eq!(relay.step(Direction::FarToNear, PumpEvent::Written), PumpAction::Stop);
    assert_eq!(relay.pump(Direction::FarToNear), PumpState::Writing);
    assert_eq!(relay.step(Direction::FarToNear, PumpEvent::Chunk(vec![9])), PumpAction::Stop);
    assert!(relay.is_finished());
}

#[test]
fn both_directions_carry_bytes_unmodified() {
    let mut relay = Relay::new();
    let mut to_far = Vec::new();
    let mut to_near = Vec::new();
    let requests: [&[u8]; 2] = [b"GET / HTTP/1.1\r\n", b"Host: example.com\r\n\r\n"];
    let answers: [&[u8]; 2] = [b"HTTP/1.1 200 OK\r\n", &[0, 255, 5, 0, 128]];
    for (request, answer) in requests.iter().zip(answers.iter()) {
        match relay.step(Direction::NearToFar, PumpEvent::Chunk(request.to_vec())) {
            PumpAction::Write(bytes) => to_far.extend_from_slice(&bytes),
            other => panic!("expected a write, got {:?}", other),
        }
        match relay.step(Direction::FarToNear, PumpEvent::Chunk(answer.to_vec())) {
            PumpAction::Write(bytes) => to_near.extend_from_slice(&bytes),
            other => panic!("expected a write, got {:?}", other),
        }
        assert_eq!(relay.step(Direction::FarToNear, PumpEvent::Written), PumpAction::Read);
        assert_eq!(relay.step(Direction::NearToFar, PumpEvent::Written), PumpAction::Read);
    }
    assert_eq!(to_far, requests.concat());
    assert_eq!(to_near, answers.concat());
    assert!(!relay.is_finished());
}

#[test]
fn write_failure_finishes_the_relay() {
    let mut relay = Relay::new();
    assert_eq!(
        relay.step(Direction::NearToFar, PumpEvent::Chunk(vec![1])),
        PumpAction::Write(vec![1])
    );
    assert_eq!(relay.step(Direction::NearToFar, PumpEvent::WriteFailed), PumpAction::Stop);
    assert!(relay.is_finished());
}
