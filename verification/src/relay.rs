//! The relay engine: forwarding bytes between two duplex streams.
//!
//! Each direction is a pump that reads a chunk and writes it out verbatim,
//! over and over, until the source closes or an operation fails. The two
//! pumps of a relay are independent, and the relay as a whole is finished as
//! soon as either of them stops: the other one is abandoned where it stands.
//!
//! The pumps decide only. The caller performs the reads and writes they ask
//! for and reports what came of each.

use vstd::prelude::*;

verus! {

/// Largest chunk read in one piece while relaying.
pub const RELAY_BUFFER_SIZE: usize = 4096;

/// Where one direction of a relay stands.
#[derive(Clone, Copy, Debug, PartialEq, Eq, Structural)]
pub enum PumpState {
    /// A read from the source is due or under way.
    Reading,
    /// A chunk was read; writing it to the sink is due or under way.
    Writing,
    /// The direction has stopped for good.
    Stopped,
}

/// What the caller reports to a pump.
#[derive(Clone, Debug, PartialEq, Eq)]
pub enum PumpEvent {
    /// A read returned these bytes. None at all means that the source closed.
    Chunk(Vec<u8>),
    /// A read failed.
    ReadFailed,
    /// The chunk handed out last was written in full.
    Written,
    /// Writing the chunk handed out last failed.
    WriteFailed,
}

/// What a pump asks of the caller.
#[derive(Clone, Debug, PartialEq, Eq)]
pub enum PumpAction {
    /// Read the next chunk from the source.
    Read,
    /// Write exactly these bytes to the sink.
    Write(Vec<u8>),
    /// Do nothing more for this relay.
    Stop,
}

/// The mathematical value of a `PumpEvent`.
pub enum PumpEventView {
    Chunk(Seq<u8>),
    ReadFailed,
    Written,
    WriteFailed,
}

/// The mathematical value of a `PumpAction`.
pub enum PumpActionView {
    Read,
    Write(Seq<u8>),
    Stop,
}

impl View for PumpEvent {
    type V = PumpEventView;

    open spec fn view(&self) -> PumpEventView {
        match self {
            PumpEvent::Chunk(bytes) => PumpEventView::Chunk(bytes@),
            PumpEvent::ReadFailed => PumpEventView::ReadFailed,
            PumpEvent::Written => PumpEventView::Written,
            PumpEvent::WriteFailed => PumpEventView::WriteFailed,
        }
    }
}

impl View for PumpAction {
    type V = PumpActionView;

    open spec fn view(&self) -> PumpActionView {
        match self {
            PumpAction::Read => PumpActionView::Read,
            PumpAction::Write(bytes) => PumpActionView::Write(bytes@),
            PumpAction::Stop => PumpActionView::Stop,
        }
    }
}

impl PumpEventView {
    /// The bytes that a report brings from the source.
    pub open spec fn read(self) -> Seq<u8> {
        match self {
            PumpEventView::Chunk(bytes) => bytes,
            _ => Seq::<u8>::empty(),
        }
    }
}

impl PumpActionView {
    /// The bytes that an action hands to the sink.
    pub open spec fn written(self) -> Seq<u8> {
        match self {
            PumpActionView::Write(bytes) => bytes,
            _ => Seq::<u8>::empty(),
        }
    }
}

/// One direction of forwarding: the state after an event, and the action it
/// calls for.
///
/// A chunk that was read is written out as it is; an empty read, a failed
/// read and a failed write stop the pump, and nothing is tried again. A
/// report that the state does not expect stops the pump too, and a stopped
/// pump stays stopped.
pub open spec fn pump_transition(state: PumpState, event: PumpEventView) -> (
    PumpState,
    PumpActionView,
) {
    match (state, event) {
        (PumpState::Reading, PumpEventView::Chunk(bytes)) => if bytes.len() == 0 {
            (PumpState::Stopped, PumpActionView::Stop)
        } else {
            (PumpState::Writing, PumpActionView::Write(bytes))
        },
        (PumpState::Writing, PumpEventView::Written) => (PumpState::Reading, PumpActionView::Read),
        _ => (PumpState::Stopped, PumpActionView::Stop),
    }
}

/// Advances one direction of forwarding by one event.
pub fn pump_step(state: PumpState, event: PumpEvent) -> (next: (PumpState, PumpAction))
    ensures
        (next.0, next.1@) == pump_transition(state, event@),
{
    match state {
        PumpState::Reading => match event {
            PumpEvent::Chunk(bytes) => if bytes.len() == 0 {
                (PumpState::Stopped, PumpAction::Stop)
            } else {
                (PumpState::Writing, PumpAction::Write(bytes))
            },
            _ => (PumpState::Stopped, PumpAction::Stop),
        },
        PumpState::Writing => match event {
            PumpEvent::Written => (PumpState::Reading, PumpAction::Read),
            _ => (PumpState::Stopped, PumpAction::Stop),
        },
        PumpState::Stopped => (PumpState::Stopped, PumpAction::Stop),
    }
}

/// One of the two directions of a relay.
#[derive(Clone, Copy, Debug, PartialEq, Eq, Structural)]
pub enum Direction {
    /// From the near stream (the tunnel side) to the far stream.
    NearToFar,
    /// From the far stream (the destination side) to the near stream.
    FarToNear,
}

impl Direction {
    /// The other direction.
    pub open spec fn opposite(self) -> Direction {
        match self {
            Direction::NearToFar => Direction::FarToNear,
            Direction::FarToNear => Direction::NearToFar,
        }
    }
}

/// The two directions of forwarding between a near and a far stream.
#[derive(Clone, Debug, PartialEq, Eq)]
pub struct Relay {
    near_to_far: PumpState,
    far_to_near: PumpState,
}

/// The mathematical value of a `Relay`: the state of each direction.
pub struct RelayView {
    pub near_to_far: PumpState,
    pub far_to_near: PumpState,
}

impl View for Relay {
    type V = RelayView;

    closed spec fn view(&self) -> RelayView {
        RelayView { near_to_far: self.near_to_far, far_to_near: self.far_to_near }
    }
}

impl RelayView {
    /// A relay whose two directions are both about to read.
    pub open spec fn fresh() -> RelayView {
        RelayView { near_to_far: PumpState::Reading, far_to_near: PumpState::Reading }
    }

    /// The state of one direction.
    pub open spec fn pump(self, direction: Direction) -> PumpState {
        match direction {
            Direction::NearToFar => self.near_to_far,
            Direction::FarToNear => self.far_to_near,
        }
    }

    /// The relay with one direction in another state.
    pub open spec fn with_pump(self, direction: Direction, state: PumpState) -> RelayView {
        match direction {
            Direction::NearToFar => RelayView { near_to_far: state, ..self },
            Direction::FarToNear => RelayView { far_to_near: state, ..self },
        }
    }

    /// Whether the relay is finished: either direction has stopped.
    pub open spec fn finished(self) -> bool {
        self.near_to_far == PumpState::Stopped || self.far_to_near == PumpState::Stopped
    }
}

/// The relay after an event in one direction, and the action called for in
/// that direction.
///
/// While neither direction has stopped, each advances on its own. Once the
/// relay is finished every report is answered with `Stop` and changes
/// nothing.
pub open spec fn relay_transition(relay: RelayView, direction: Direction, event: PumpEventView) -> (
    RelayView,
    PumpActionView,
) {
    if relay.finished() {
        (relay, PumpActionView::Stop)
    } else {
        let (state, action) = pump_transition(relay.pump(direction), event);
        (relay.with_pump(direction, state), action)
    }
}

impl Relay {
    /// A relay at its start: both directions are about to read.
    pub fn new() -> (relay: Relay)
        ensures
            relay@ == RelayView::fresh(),
    {
        Relay { near_to_far: PumpState::Reading, far_to_near: PumpState::Reading }
    }

    /// The state of one direction.
    pub fn pump(&self, direction: Direction) -> (state: PumpState)
        ensures
            state == self@.pump(direction),
    {
        match direction {
            Direction::NearToFar => self.near_to_far,
            Direction::FarToNear => self.far_to_near,
        }
    }

    /// Whether the relay is finished: either direction has stopped.
    pub fn is_finished(&self) -> (finished: bool)
        ensures
            finished == self@.finished(),
    {
        self.near_to_far == PumpState::Stopped || self.far_to_near == PumpState::Stopped
    }

    /// Reports an event in one direction and says what to do next in that
    /// direction.
    pub fn step(&mut self, direction: Direction, event: PumpEvent) -> (action: PumpAction)
        ensures
            (final(self)@, action@) == relay_transition(old(self)@, direction, event@),
    {
        if self.is_finished() {
            return PumpAction::Stop;
        }
        match direction {
            Direction::NearToFar => {
                let (state, action) = pump_step(self.near_to_far, event);
                self.near_to_far = state;
                action
            },
            Direction::FarToNear => {
                let (state, action) = pump_step(self.far_to_near, event);
                self.far_to_near = state;
                action
            },
        }
    }
}

/// The relay that a sequence of events leads to.
pub open spec fn relay_run(relay: RelayView, events: Seq<(Direction, PumpEventView)>) -> RelayView
    decreases events.len(),
{
    if events.len() == 0 {
        relay
    } else {
        relay_run(
            relay_transition(relay, events[0].0, events[0].1).0,
            events.drop_first(),
        )
    }
}

/// All the bytes that a relay hands to the sink of one direction over a
/// sequence of events, in the order in which it hands them out.
pub open spec fn forwarded(
    relay: RelayView,
    events: Seq<(Direction, PumpEventView)>,
    direction: Direction,
) -> Seq<u8>
    decreases events.len(),
{
    if events.len() == 0 {
        Seq::<u8>::empty()
    } else {
        let (next, action) = relay_transition(relay, events[0].0, events[0].1);
        let now = if events[0].0 == direction {
            action.written()
        } else {
            Seq::<u8>::empty()
        };
        now + forwarded(next, events.drop_first(), direction)
    }
}

/// All the bytes that the source of one direction brought over a sequence of
/// events, in the order in which they were read.
pub open spec fn delivered(events: Seq<(Direction, PumpEventView)>, direction: Direction) -> Seq<u8>
    decreases events.len(),
{
    if events.len() == 0 {
        Seq::<u8>::empty()
    } else {
        let now = if events[0].0 == direction {
            events[0].1.read()
        } else {
            Seq::<u8>::empty()
        };
        now + delivered(events.drop_first(), direction)
    }
}

/// The reports of a source that yields the given chunks one after another,
/// each of them written out in full, and then closes.
pub open spec fn transfer(direction: Direction, chunks: Seq<Seq<u8>>) -> Seq<
    (Direction, PumpEventView),
>
    decreases chunks.len(),
{
    if chunks.len() == 0 {
        seq![(direction, PumpEventView::Chunk(Seq::<u8>::empty()))]
    } else {
        seq![(direction, PumpEventView::Chunk(chunks[0])), (direction, PumpEventView::Written)]
            + transfer(direction, chunks.drop_first())
    }
}

/// A chunk that was read is passed on byte for byte, and once it is written
/// the next read is due.
pub proof fn chunk_is_forwarded_verbatim(bytes: Seq<u8>)
    requires
        bytes.len() > 0,
    ensures
        pump_transition(PumpState::Reading, PumpEventView::Chunk(bytes)) == (
            PumpState::Writing,
            PumpActionView::Write(bytes),
        ),
        pump_transition(PumpState::Writing, PumpEventView::Written) == (
            PumpState::Reading,
            PumpActionView::Read,
        ),
{
}

/// An empty read, a failed read and a failed write each stop a direction at
/// once: nothing is retried.
pub proof fn end_or_failure_stops_pump(state: PumpState, event: PumpEventView)
    requires
        event == PumpEventView::Chunk(Seq::<u8>::empty()) || event == PumpEventView::ReadFailed
            || event == PumpEventView::WriteFailed,
    ensures
        pump_transition(state, event) == (PumpState::Stopped, PumpActionView::Stop),
{
}

/// As soon as one direction stops, the relay is finished, whatever state the
/// other direction is in.
pub proof fn one_stop_finishes_relay(relay: RelayView, direction: Direction, event: PumpEventView)
    requires
        pump_transition(relay.pump(direction), event).0 == PumpState::Stopped,
    ensures
        relay_transition(relay, direction, event).0.finished(),
{
}

/// A source that fails on the first read finishes a fresh relay at once. The
/// other direction need not close or fail: it is still reading, and no
/// further event is needed.
pub proof fn immediate_failure_finishes_relay(direction: Direction)
    ensures
        relay_transition(RelayView::fresh(), direction, PumpEventView::ReadFailed).0.finished(),
        relay_transition(RelayView::fresh(), direction, PumpEventView::ReadFailed).0.pump(
            direction.opposite(),
        ) == PumpState::Reading,
        relay_transition(RelayView::fresh(), direction, PumpEventView::ReadFailed).1
            == PumpActionView::Stop,
{
}

/// A finished relay stays finished: every further report is answered with
/// `Stop` and changes nothing.
pub proof fn finished_relay_stays(relay: RelayView, direction: Direction, event: PumpEventView)
    requires
        relay.finished(),
    ensures
        relay_transition(relay, direction, event) == (relay, PumpActionView::Stop),
{
}

/// Until the relay is finished, an event in one direction leaves the other
/// direction as it was.
pub proof fn directions_are_independent(
    relay: RelayView,
    direction: Direction,
    event: PumpEventView,
)
    ensures
        relay_transition(relay, direction, event).0.pump(direction.opposite()) == relay.pump(
            direction.opposite(),
        ),
{
}

/// When one stream sends chunks and then closes while the other sends
/// nothing, the relay finishes, and what was handed to the receiving side is
/// exactly the bytes sent, in order. Nothing goes the other way.
pub proof fn one_way_transfer_arrives(
    relay: RelayView,
    direction: Direction,
    chunks: Seq<Seq<u8>>,
)
    requires
        !relay.finished(),
        relay.pump(direction) == PumpState::Reading,
        forall|i: int| 0 <= i < chunks.len() ==> (#[trigger] chunks[i]).len() > 0,
    ensures
        relay_run(relay, transfer(direction, chunks)).finished(),
        relay_run(relay, transfer(direction, chunks)).pump(direction.opposite()) == relay.pump(
            direction.opposite(),
        ),
        forwarded(relay, transfer(direction, chunks), direction) == chunks.flatten(),
        forwarded(relay, transfer(direction, chunks), direction.opposite()).len() == 0,
    decreases chunks.len(),
{
    let events = transfer(direction, chunks);
    if chunks.len() == 0 {
        assert(events.drop_first() =~= Seq::<(Direction, PumpEventView)>::empty());
        reveal_with_fuel(relay_run, 2);
        reveal_with_fuel(forwarded, 2);
        assert(forwarded(relay, events, direction) =~= chunks.flatten());
    } else {
        let rest = chunks.drop_first();
        let tail = transfer(direction, rest);
        let after_read = relay_transition(relay, direction, PumpEventView::Chunk(chunks[0])).0;
        let after_write = relay_transition(after_read, direction, PumpEventView::Written).0;
        assert(after_read == relay.with_pump(direction, PumpState::Writing));
        assert(after_write == relay);
        assert(events.drop_first() =~= seq![(direction, PumpEventView::Written)] + tail);
        assert(events.drop_first().drop_first() =~= tail);
        assert forall|i: int| 0 <= i < rest.len() implies (#[trigger] rest[i]).len() > 0 by {
            assert(rest[i] == chunks[i + 1]);
        }
        one_way_transfer_arrives(relay, direction, rest);
        reveal_with_fuel(relay_run, 3);
        reveal_with_fuel(forwarded, 3);
        assert(relay_run(relay, events) == relay_run(relay, tail));
        assert(forwarded(relay, events, direction) =~= chunks[0] + forwarded(
            relay,
            tail,
            direction,
        ));
        assert(forwarded(relay, events, direction.opposite()) =~= forwarded(
            relay,
            tail,
            direction.opposite(),
        ));
    }
}

/// A finished relay hands nothing more to either side.
pub proof fn finished_relay_forwards_nothing(
    relay: RelayView,
    events: Seq<(Direction, PumpEventView)>,
    direction: Direction,
)
    requires
        relay.finished(),
    ensures
        forwarded(relay, events, direction).len() == 0,
        relay_run(relay, events) == relay,
    decreases events.len(),
{
    if events.len() > 0 {
        finished_relay_forwards_nothing(relay, events.drop_first(), direction);
    }
}

/// Bytes are never altered, reordered or invented: whatever the events, what
/// a direction hands to its sink is a prefix of what its source brought.
pub proof fn forwarded_is_prefix_of_delivered(
    relay: RelayView,
    events: Seq<(Direction, PumpEventView)>,
    direction: Direction,
)
    ensures
        forwarded(relay, events, direction).is_prefix_of(delivered(events, direction)),
    decreases events.len(),
{
    if events.len() > 0 {
        let rest = events.drop_first();
        let (next, action) = relay_transition(relay, events[0].0, events[0].1);
        let handed = forwarded(next, rest, direction);
        let brought = delivered(rest, direction);
        forwarded_is_prefix_of_delivered(next, rest, direction);
        if events[0].0 == direction {
            if action.written().len() == 0 {
                if events[0].1.read().len() > 0 {
                    finished_relay_forwards_nothing(next, rest, direction);
                }
                assert(forwarded(relay, events, direction) =~= handed);
                assert(handed.is_prefix_of(events[0].1.read() + brought));
            } else {
                let chunk = action.written();
                assert(events[0].1.read() == chunk);
                assert(forwarded(relay, events, direction) =~= chunk + handed);
                assert((chunk + handed).is_prefix_of(chunk + brought)) by {
                    assert((chunk + brought).subrange(0, (chunk + handed).len() as int) =~= chunk
                        + brought.subrange(0, handed.len() as int));
                }
            }
        } else {
            assert(forwarded(relay, events, direction) =~= handed);
            assert(delivered(events, direction) =~= brought);
        }
    }
}

} // verus!
