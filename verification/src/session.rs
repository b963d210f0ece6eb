//! One poll of the flight controller as a state machine. The machine
//! decides; its driver does the transport's work and reports back: every
//! [`Action`] names what to do next, every [`Event`] says how that went.

use crate::error::{DecodeError, PacketError};
use crate::msg::{MsgType, CONTROLS_SIZE, LINK_STATS_SIZE, PARAMS_SIZE, WAYPOINTS_SIZE};
use crate::packet::{frame_of, parse_expected, parse_response};
use crate::snapshot::{AircraftSnapshot, SnapshotView};
use crate::telemetry::{ChannelData, LinkStats, Params};
use crate::waypoint::{decode_waypoints, waypoints_from_buf};
use crate::wire::array_at;
use vstd::prelude::*;

verus! {

/// The kinds of telemetry that a poll asks for, in the order of asking.
#[derive(Clone, Copy, Debug, PartialEq, Eq, Structural)]
pub enum TelemetryKind {
    Params,
    Controls,
    LinkStats,
    Waypoints,
}

impl TelemetryKind {
    /// The message that asks for this kind.
    pub open spec fn spec_request(&self) -> MsgType {
        match self {
            TelemetryKind::Params => MsgType::ReqParams,
            TelemetryKind::Controls => MsgType::ReqControls,
            TelemetryKind::LinkStats => MsgType::ReqLinkStats,
            TelemetryKind::Waypoints => MsgType::ReqWaypoints,
        }
    }

    /// The message that answers.
    pub open spec fn spec_response(&self) -> MsgType {
        match self {
            TelemetryKind::Params => MsgType::Params,
            TelemetryKind::Controls => MsgType::Controls,
            TelemetryKind::LinkStats => MsgType::LinkStats,
            TelemetryKind::Waypoints => MsgType::Waypoints,
        }
    }

    /// The kind that is asked for after this one, if any is left.
    pub open spec fn spec_next(&self) -> Option<TelemetryKind> {
        match self {
            TelemetryKind::Params => Some(TelemetryKind::Controls),
            TelemetryKind::Controls => Some(TelemetryKind::LinkStats),
            TelemetryKind::LinkStats => Some(TelemetryKind::Waypoints),
            TelemetryKind::Waypoints => None,
        }
    }

    /// The message that asks for this kind.
    #[verifier::when_used_as_spec(spec_request)]
    pub fn request(&self) -> (t: MsgType)
        ensures
            t == self.spec_request(),
    {
        match self {
            Self::Params => MsgType::ReqParams,
            Self::Controls => MsgType::ReqControls,
            Self::LinkStats => MsgType::ReqLinkStats,
            Self::Waypoints => MsgType::ReqWaypoints,
        }
    }

    /// The message that answers.
    #[verifier::when_used_as_spec(spec_response)]
    pub fn response(&self) -> (t: MsgType)
        ensures
            t == self.spec_response(),
    {
        match self {
            Self::Params => MsgType::Params,
            Self::Controls => MsgType::Controls,
            Self::LinkStats => MsgType::LinkStats,
            Self::Waypoints => MsgType::Waypoints,
        }
    }

    /// The kind that is asked for after this one, if any is left.
    #[verifier::when_used_as_spec(spec_next)]
    pub fn next(&self) -> (kind: Option<TelemetryKind>)
        ensures
            kind == self.spec_next(),
    {
        match self {
            Self::Params => Some(Self::Controls),
            Self::Controls => Some(Self::LinkStats),
            Self::LinkStats => Some(Self::Waypoints),
            Self::Waypoints => None,
        }
    }
}

/// Why a poll failed.
#[derive(Clone, Copy, Debug, PartialEq, Eq, Structural)]
pub enum PollError {
    /// The transport could not write or read, or ran out of time.
    Transport,
    /// A response was no frame of the awaited message.
    Packet(PacketError),
    /// A payload held a field without a legal value.
    Decode(DecodeError),
    /// The driver reported something that the machine was not waiting for.
    OutOfOrder,
}

/// Where a poll stands.
#[derive(Clone, Copy, Debug, PartialEq, Eq, Structural)]
pub enum PollState {
    /// Nothing was asked yet.
    Idle,
    /// The request for a kind was handed to the driver.
    RequestSent(TelemetryKind),
    /// The request is written; the response is due.
    AwaitingResponse(TelemetryKind),
    /// The response was checked, decoded and taken into the snapshot.
    Decoded(TelemetryKind),
    /// All kinds are in: the snapshot is whole.
    SnapshotComplete,
    /// The poll is over and has no snapshot.
    PollFailed(PollError),
}

/// What the driver reports.
#[derive(Clone, Debug, PartialEq, Eq)]
pub enum Event {
    /// A poll is wanted.
    Trigger,
    /// The bytes of [`Action::Write`] were written.
    Written,
    /// The read of [`Action::Read`] returned these bytes.
    Received(Vec<u8>),
    /// Nothing was to be done outside, as [`Action::Proceed`] said.
    Proceed,
    /// The transport failed to write or to read.
    TransportFailed,
}

/// An event with its bytes as a sequence.
pub enum EventView {
    Trigger,
    Written,
    Received(Seq<u8>),
    Proceed,
    TransportFailed,
}

impl View for Event {
    type V = EventView;

    open spec fn view(&self) -> EventView {
        match self {
            Event::Trigger => EventView::Trigger,
            Event::Written => EventView::Written,
            Event::Received(bytes) => EventView::Received(bytes@),
            Event::Proceed => EventView::Proceed,
            Event::TransportFailed => EventView::TransportFailed,
        }
    }
}

/// What the driver is to do next.
#[derive(Clone, Debug, PartialEq, Eq)]
pub enum Action {
    /// Write these bytes, then report [`Event::Written`].
    Write(Vec<u8>),
    /// Read this many bytes, then report them in [`Event::Received`].
    Read(usize),
    /// Report [`Event::Proceed`].
    Proceed,
    /// The snapshot is whole: take it.
    Done,
    /// The poll failed for this reason.
    Failed(PollError),
}

/// An action with its bytes as a sequence.
pub enum ActionView {
    Write(Seq<u8>),
    Read(usize),
    Proceed,
    Done,
    Failed(PollError),
}

impl View for Action {
    type V = ActionView;

    open spec fn view(&self) -> ActionView {
        match self {
            Action::Write(bytes) => ActionView::Write(bytes@),
            Action::Read(n) => ActionView::Read(*n),
            Action::Proceed => ActionView::Proceed,
            Action::Done => ActionView::Done,
            Action::Failed(e) => ActionView::Failed(*e),
        }
    }
}

/// A poll in progress: its state and the snapshot as far as it is filled.
pub struct Session {
    state: PollState,
    snapshot: AircraftSnapshot,
}

/// A session by its state and the view of its snapshot.
pub struct SessionView {
    pub state: PollState,
    pub snapshot: SnapshotView,
}

/// The two-byte frame that asks for a kind of telemetry.
pub open spec fn request_frame(lut: Seq<u8>, kind: TelemetryKind) -> Seq<u8> {
    frame_of(lut, kind.spec_request(), Seq::<u8>::empty())
}

/// Length of the response to a request for a kind: type byte, payload,
/// checksum.
pub open spec fn response_len(kind: TelemetryKind) -> usize {
    (kind.spec_response().spec_payload_size() + 2) as usize
}

/// The snapshot after the response `buf` for `kind` was taken in, or the
/// reason for refusing the response: first the frame is checked (leading
/// byte, length, checksum), then the payload is decoded.
pub open spec fn take_in(lut: Seq<u8>, kind: TelemetryKind, buf: Seq<u8>, snapshot: SnapshotView)
    -> Result<SnapshotView, PollError> {
    match parse_expected(lut, kind.spec_response(), buf) {
        Err(e) => Err(PollError::Packet(e)),
        Ok(payload) => match kind {
            TelemetryKind::Params => Ok(snapshot.with_params(Params::decode(payload))),
            TelemetryKind::Controls => match ChannelData::decode(payload) {
                Ok(controls) => Ok(snapshot.with_controls(controls)),
                Err(e) => Err(PollError::Decode(e)),
            },
            TelemetryKind::LinkStats => Ok(snapshot.with_link_stats(LinkStats::decode(payload))),
            TelemetryKind::Waypoints => match decode_waypoints(payload) {
                Ok(waypoints) => Ok(snapshot.with_waypoints(waypoints)),
                Err(e) => Err(PollError::Decode(e)),
            },
        },
    }
}

/// The session after a failure, and the action that tells of it.
pub open spec fn failed(s: SessionView, e: PollError) -> (SessionView, ActionView) {
    (SessionView { state: PollState::PollFailed(e), ..s }, ActionView::Failed(e))
}

/// The session that asks for `kind` next, and the action that writes the
/// request.
pub open spec fn asking(lut: Seq<u8>, s: SessionView, kind: TelemetryKind) -> (
    SessionView,
    ActionView,
) {
    (
        SessionView { state: PollState::RequestSent(kind), ..s },
        ActionView::Write(request_frame(lut, kind)),
    )
}

/// The transition function: the session after an event, and the action
/// that the driver is to take.
///
/// A finished poll stays as it is whatever is reported. A transport
/// failure ends an unfinished poll. Otherwise each state waits for one
/// event: `Idle` for `Trigger`, `RequestSent` for `Written`,
/// `AwaitingResponse` for `Received`, `Decoded` for `Proceed`; any other
/// event ends the poll as out of order.
pub open spec fn step_spec(lut: Seq<u8>, s: SessionView, event: EventView) -> (
    SessionView,
    ActionView,
) {
    match s.state {
        PollState::SnapshotComplete => (s, ActionView::Done),
        PollState::PollFailed(e) => (s, ActionView::Failed(e)),
        PollState::Idle => match event {
            EventView::Trigger => asking(lut, s, TelemetryKind::Params),
            EventView::TransportFailed => failed(s, PollError::Transport),
            _ => failed(s, PollError::OutOfOrder),
        },
        PollState::RequestSent(kind) => match event {
            EventView::Written => (
                SessionView { state: PollState::AwaitingResponse(kind), ..s },
                ActionView::Read(response_len(kind)),
            ),
            EventView::TransportFailed => failed(s, PollError::Transport),
            _ => failed(s, PollError::OutOfOrder),
        },
        PollState::AwaitingResponse(kind) => match event {
            EventView::Received(buf) => match take_in(lut, kind, buf, s.snapshot) {
                Ok(snapshot) => (
                    SessionView { state: PollState::Decoded(kind), snapshot },
                    ActionView::Proceed,
                ),
                Err(e) => failed(s, e),
            },
            EventView::TransportFailed => failed(s, PollError::Transport),
            _ => failed(s, PollError::OutOfOrder),
        },
        PollState::Decoded(kind) => match event {
            EventView::Proceed => match kind.spec_next() {
                Some(next) => asking(lut, s, next),
                None => (SessionView { state: PollState::SnapshotComplete, ..s }, ActionView::Done),
            },
            EventView::TransportFailed => failed(s, PollError::Transport),
            _ => failed(s, PollError::OutOfOrder),
        },
    }
}

impl View for Session {
    type V = SessionView;

    closed spec fn view(&self) -> SessionView {
        SessionView { state: self.state, snapshot: self.snapshot@ }
    }
}

impl Session {
    /// A poll that has not begun, with a blank snapshot.
    pub fn new() -> (session: Session)
        ensures
            session@ == (SessionView { state: PollState::Idle, snapshot: SnapshotView::blank() }),
    {
        Session { state: PollState::Idle, snapshot: AircraftSnapshot::default() }
    }

    /// Where the poll stands.
    pub fn state(&self) -> (state: PollState)
        ensures
            state == self@.state,
    {
        self.state
    }

    /// Hands out the snapshot of a complete poll, and nothing of any other.
    pub fn into_snapshot(self) -> (snapshot: Option<AircraftSnapshot>)
        ensures
            snapshot is Some <==> self@.state == PollState::SnapshotComplete,
            snapshot matches Some(s) ==> s@ == self@.snapshot,
    {
        match self.state {
            PollState::SnapshotComplete => Some(self.snapshot),
            _ => None,
        }
    }

    /// Ends the poll with a reason.
    fn fail(&mut self, e: PollError) -> (action: Action)
        ensures
            (final(self)@, action@) == failed(old(self)@, e),
    {
        self.state = PollState::PollFailed(e);
        Action::Failed(e)
    }

    /// Turns to asking for `kind`.
    fn ask(&mut self, lut: &[u8; 256], kind: TelemetryKind) -> (action: Action)
        ensures
            (final(self)@, action@) == asking(lut@, old(self)@, kind),
    {
        let empty: [u8; 0] = [];
        match crate::packet::encode(lut, kind.request(), empty.as_slice()) {
            Ok(bytes) => {
                assert(empty@ =~= Seq::<u8>::empty());
                self.state = PollState::RequestSent(kind);
                Action::Write(bytes)
            },
            Err(_) => vstd::pervasive::unreached(),
        }
    }

    /// Checks and decodes the response for `kind` into the snapshot.
    fn receive(&mut self, lut: &[u8; 256], kind: TelemetryKind, buf: &[u8]) -> (r: Result<
        (),
        PollError,
    >)
        ensures
            final(self)@.state == old(self)@.state,
            match r {
                Ok(_) => take_in(lut@, kind, buf@, old(self)@.snapshot) == Ok::<
                    SnapshotView,
                    PollError,
                >(final(self)@.snapshot),
                Err(e) => take_in(lut@, kind, buf@, old(self)@.snapshot) == Err::<
                    SnapshotView,
                    PollError,
                >(e) && final(self)@ == old(self)@,
            },
    {
        let payload = match parse_response(lut, kind.response(), buf) {
            Ok(payload) => payload,
            Err(e) => {
                return Err(PollError::Packet(e));
            },
        };
        let bytes = payload.as_slice();
        proof {
            crate::msg::lemma_payload_sizes();
            assert(bytes@.subrange(0, bytes@.len() as int) == bytes@);
        }
        match kind {
            TelemetryKind::Params => {
                let params = Params::from(array_at::<PARAMS_SIZE>(bytes, 0));
                self.snapshot.attitude_quat = params.attitude_quat;
                self.snapshot.altimeter = params.altimeter;
                self.snapshot.altimeter_agl = params.altimeter_agl;
                self.snapshot.batt_v = params.batt_v;
                self.snapshot.current = params.current;
            },
            TelemetryKind::Controls => {
                match ChannelData::try_from(array_at::<CONTROLS_SIZE>(bytes, 0)) {
                    Ok(controls) => {
                        self.snapshot.controls = controls;
                    },
                    Err(e) => {
                        return Err(PollError::Decode(e));
                    },
                }
            },
            TelemetryKind::LinkStats => {
                self.snapshot.link_stats = LinkStats::from(
                    array_at::<LINK_STATS_SIZE>(bytes, 0),
                );
            },
            TelemetryKind::Waypoints => {
                match waypoints_from_buf(array_at::<WAYPOINTS_SIZE>(bytes, 0)) {
                    Ok(waypoints) => {
                        self.snapshot.waypoints = waypoints;
                    },
                    Err(e) => {
                        return Err(PollError::Decode(e));
                    },
                }
            },
        }
        Ok(())
    }

    /// Takes one event and says what the driver is to do next.
    pub fn step(&mut self, lut: &[u8; 256], event: Event) -> (action: Action)
        ensures
            (final(self)@, action@) == step_spec(lut@, old(self)@, event@),
    {
        match self.state {
            PollState::SnapshotComplete => Action::Done,
            PollState::PollFailed(e) => Action::Failed(e),
            PollState::Idle => match event {
                Event::Trigger => self.ask(lut, TelemetryKind::Params),
                Event::TransportFailed => self.fail(PollError::Transport),
                _ => self.fail(PollError::OutOfOrder),
            },
            PollState::RequestSent(kind) => match event {
                Event::Written => {
                    proof {
                        crate::msg::lemma_payload_sizes();
                    }
                    self.state = PollState::AwaitingResponse(kind);
                    Action::Read(kind.response().payload_size() + 2)
                },
                Event::TransportFailed => self.fail(PollError::Transport),
                _ => self.fail(PollError::OutOfOrder),
            },
            PollState::AwaitingResponse(kind) => match event {
                Event::Received(buf) => match self.receive(lut, kind, buf.as_slice()) {
                    Ok(_) => {
                        self.state = PollState::Decoded(kind);
                        Action::Proceed
                    },
                    Err(e) => self.fail(e),
                },
                Event::TransportFailed => self.fail(PollError::Transport),
                _ => self.fail(PollError::OutOfOrder),
            },
            PollState::Decoded(kind) => match event {
                Event::Proceed => match kind.next() {
                    Some(next) => self.ask(lut, next),
                    None => {
                        self.state = PollState::SnapshotComplete;
                        Action::Done
                    },
                },
                Event::TransportFailed => self.fail(PollError::Transport),
                _ => self.fail(PollError::OutOfOrder),
            },
        }
    }
}

/// The session after a sequence of events, taken one after the other.
pub open spec fn run(lut: Seq<u8>, s: SessionView, events: Seq<EventView>) -> SessionView
    decreases events.len(),
{
    if events.len() == 0 {
        s
    } else {
        run(lut, step_spec(lut, s, events[0]).0, events.drop_first())
    }
}

/// What the driver reports in one exchange that meets no transport
/// failure: the request is written, `buf` is read, the machine goes on.
pub open spec fn exchange(buf: Seq<u8>) -> Seq<EventView> {
    seq![EventView::Written, EventView::Received(buf), EventView::Proceed]
}

/// What the driver reports in a whole poll that meets no transport
/// failure, the four responses being `params`, `controls`, `link_stats`
/// and `waypoints`.
pub open spec fn poll_events(
    params: Seq<u8>,
    controls: Seq<u8>,
    link_stats: Seq<u8>,
    waypoints: Seq<u8>,
) -> Seq<EventView> {
    seq![EventView::Trigger] + exchange(params) + exchange(controls) + exchange(link_stats)
        + exchange(waypoints)
}

/// What four responses amount to: the snapshot that takes them in one
/// after the other, starting blank, or the reason for refusing the first
/// that is refused.
pub open spec fn poll_outcome(
    lut: Seq<u8>,
    params: Seq<u8>,
    controls: Seq<u8>,
    link_stats: Seq<u8>,
    waypoints: Seq<u8>,
) -> Result<SnapshotView, PollError> {
    match take_in(lut, TelemetryKind::Params, params, SnapshotView::blank()) {
        Err(e) => Err(e),
        Ok(s1) => match take_in(lut, TelemetryKind::Controls, controls, s1) {
            Err(e) => Err(e),
            Ok(s2) => match take_in(lut, TelemetryKind::LinkStats, link_stats, s2) {
                Err(e) => Err(e),
                Ok(s3) => take_in(lut, TelemetryKind::Waypoints, waypoints, s3),
            },
        },
    }
}

/// A poll that is complete or has failed stays as it is, whatever is
/// reported to it.
pub proof fn lemma_finished_poll_stays(lut: Seq<u8>, s: SessionView, event: EventView)
    requires
        s.state == PollState::SnapshotComplete || s.state is PollFailed,
    ensures
        step_spec(lut, s, event).0 == s,
        s.state == PollState::SnapshotComplete ==> step_spec(lut, s, event).1 == ActionView::Done,
        s.state matches PollState::PollFailed(e) ==> step_spec(lut, s, event).1
            == ActionView::Failed(e),
{
}

/// A failure of the transport ends every unfinished poll, and no step
/// after that brings a snapshot.
pub proof fn lemma_transport_failure_ends_poll(lut: Seq<u8>, s: SessionView)
    requires
        s.state != PollState::SnapshotComplete,
        !(s.state is PollFailed),
    ensures
        step_spec(lut, s, EventView::TransportFailed) == failed(s, PollError::Transport),
{
}

/// No single step leads from a poll that is not yet complete to a complete
/// one except the step that follows the decoding of the last kind, the
/// waypoints: a snapshot is whole or it is not handed out.
pub proof fn lemma_complete_only_after_last(lut: Seq<u8>, s: SessionView, event: EventView)
    requires
        s.state != PollState::SnapshotComplete,
        step_spec(lut, s, event).0.state == PollState::SnapshotComplete,
    ensures
        s.state == PollState::Decoded(TelemetryKind::Waypoints),
        event == EventView::Proceed,
        step_spec(lut, s, event).0.snapshot == s.snapshot,
{
}

/// Running two sequences of events one after the other is running their
/// concatenation.
pub proof fn lemma_run_concat(lut: Seq<u8>, s: SessionView, a: Seq<EventView>, b: Seq<EventView>)
    ensures
        run(lut, s, a + b) == run(lut, run(lut, s, a), b),
    decreases a.len(),
{
    if a.len() == 0 {
        assert(a + b =~= b);
    } else {
        assert((a + b).drop_first() =~= a.drop_first() + b);
        lemma_run_concat(lut, step_spec(lut, s, a[0]).0, a.drop_first(), b);
    }
}

/// A finished poll stays as it is over any sequence of events.
pub proof fn lemma_run_finished(lut: Seq<u8>, s: SessionView, events: Seq<EventView>)
    requires
        s.state == PollState::SnapshotComplete || s.state is PollFailed,
    ensures
        run(lut, s, events) == s,
    decreases events.len(),
{
    if events.len() > 0 {
        lemma_run_finished(lut, s, events.drop_first());
    }
}

/// One exchange on a session whose request for `kind` is out: where the
/// response is taken in, the session holds the new snapshot and asks for
/// the next kind, or is complete after the last; where it is refused, the
/// poll has failed for that reason.
pub proof fn lemma_exchange(lut: Seq<u8>, s: SessionView, kind: TelemetryKind, buf: Seq<u8>)
    requires
        s.state == PollState::RequestSent(kind),
    ensures
        run(lut, s, exchange(buf)) == (match take_in(lut, kind, buf, s.snapshot) {
            Ok(snapshot) => SessionView {
                state: match kind.spec_next() {
                    Some(next) => PollState::RequestSent(next),
                    None => PollState::SnapshotComplete,
                },
                snapshot,
            },
            Err(e) => SessionView { state: PollState::PollFailed(e), ..s },
        }),
{
    let events = exchange(buf);
    let s1 = step_spec(lut, s, events[0]).0;
    let rest1 = events.drop_first();
    let s2 = step_spec(lut, s1, rest1[0]).0;
    let rest2 = rest1.drop_first();
    let s3 = step_spec(lut, s2, rest2[0]).0;
    let rest3 = rest2.drop_first();
    assert(rest1[0] == EventView::Received(buf));
    assert(rest2[0] == EventView::Proceed);
    assert(rest3.len() == 0);
    assert(run(lut, s3, rest3) == s3);
    assert(run(lut, s2, rest2) == s3);
    assert(run(lut, s1, rest1) == s3);
    assert(run(lut, s, events) == s3);
}

/// A whole poll without transport failure ends complete exactly where all
/// four responses are taken in, and its snapshot is then what the four
/// amount to; else it ends failed for the reason of the first response
/// that is refused.
pub proof fn lemma_poll_outcome(
    lut: Seq<u8>,
    params: Seq<u8>,
    controls: Seq<u8>,
    link_stats: Seq<u8>,
    waypoints: Seq<u8>,
)
    ensures
        ({
            let start = SessionView { state: PollState::Idle, snapshot: SnapshotView::blank() };
            let end = run(lut, start, poll_events(params, controls, link_stats, waypoints));
            match poll_outcome(lut, params, controls, link_stats, waypoints) {
                Ok(snapshot) => end == (SessionView {
                    state: PollState::SnapshotComplete,
                    snapshot,
                }),
                Err(e) => end.state == PollState::PollFailed(e),
            }
        }),
{
    let start = SessionView { state: PollState::Idle, snapshot: SnapshotView::blank() };
    let trigger = seq![EventView::Trigger];
    let e1 = exchange(params);
    let e2 = exchange(controls);
    let e3 = exchange(link_stats);
    let e4 = exchange(waypoints);
    let s0 = run(lut, start, trigger);
    assert(s0 == asking(lut, start, TelemetryKind::Params).0) by {
        assert(trigger.drop_first().len() == 0);
        assert(run(lut, step_spec(lut, start, trigger[0]).0, trigger.drop_first()) == step_spec(
            lut,
            start,
            trigger[0],
        ).0);
    }
    let s1 = run(lut, s0, e1);
    let s2 = run(lut, s1, e2);
    let s3 = run(lut, s2, e3);
    let s4 = run(lut, s3, e4);
    lemma_run_concat(lut, start, trigger + e1 + e2 + e3, e4);
    lemma_run_concat(lut, start, trigger + e1 + e2, e3);
    lemma_run_concat(lut, start, trigger + e1, e2);
    lemma_run_concat(lut, start, trigger, e1);
    assert(run(lut, start, poll_events(params, controls, link_stats, waypoints)) == s4);
    lemma_exchange(lut, s0, TelemetryKind::Params, params);
    if s1.state is PollFailed {
        lemma_run_finished(lut, s1, e2);
        lemma_run_finished(lut, s1, e3);
        lemma_run_finished(lut, s1, e4);
    } else {
        lemma_exchange(lut, s1, TelemetryKind::Controls, controls);
        if s2.state is PollFailed {
            lemma_run_finished(lut, s2, e3);
            lemma_run_finished(lut, s2, e4);
        } else {
            lemma_exchange(lut, s2, TelemetryKind::LinkStats, link_stats);
            if s3.state is PollFailed {
                lemma_run_finished(lut, s3, e4);
            } else {
                lemma_exchange(lut, s3, TelemetryKind::Waypoints, waypoints);
            }
        }
    }
}

} // verus!
