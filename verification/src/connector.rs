//! Establishing the transport: endpoint, connect, handshake, stream.
//!
//! The four steps run strictly one after another. Each either succeeds, which
//! makes the next one due, or fails, which ends the attempt for good. The
//! caller does the network work of the step that is due and reports how it
//! went as a [`ConnectorEvent`].

use vstd::prelude::*;
use crate::address::ResolvedAddress;
use crate::error::Failure;

verus! {

/// One step on the way to an open stream.
#[derive(Clone, Copy, Debug, PartialEq, Eq, Structural)]
pub enum Step {
    /// Create the local endpoint on whatever local address and port number
    /// the system picks. A background task drives it from then on.
    Bind,
    /// Start the connection attempt towards the remote.
    Dial,
    /// Wait for the secure handshake to finish. A background task drives
    /// the session from then on.
    Handshake,
    /// Open the one bidirectional stream on the session.
    OpenStream,
}

impl Step {
    /// How many steps come before this one.
    pub open spec fn position(self) -> nat {
        match self {
            Step::Bind => 0,
            Step::Dial => 1,
            Step::Handshake => 2,
            Step::OpenStream => 3,
        }
    }

    /// The step that becomes due when this one has succeeded, if any is left.
    pub open spec fn following(self) -> Option<Step> {
        match self {
            Step::Bind => Some(Step::Dial),
            Step::Dial => Some(Step::Handshake),
            Step::Handshake => Some(Step::OpenStream),
            Step::OpenStream => None,
        }
    }

    /// The failure that is reported when this step goes wrong.
    pub open spec fn failure_kind(self) -> Failure {
        match self {
            Step::Bind => Failure::EndpointBindFailed,
            Step::Dial => Failure::ConnectFailed,
            Step::Handshake => Failure::HandshakeFailed,
            Step::OpenStream => Failure::StreamOpenFailed,
        }
    }

    /// The step after this one, or `None` after the last.
    pub fn next(self) -> (step: Option<Step>)
        ensures
            step == self.following(),
            step matches Some(s) ==> s.position() == self.position() + 1,
            step is None <==> self == Step::OpenStream,
    {
        match self {
            Step::Bind => Some(Step::Dial),
            Step::Dial => Some(Step::Handshake),
            Step::Handshake => Some(Step::OpenStream),
            Step::OpenStream => None,
        }
    }

    /// The failure to report when this step goes wrong.
    pub fn failure(self) -> (kind: Failure)
        ensures
            kind == self.failure_kind(),
    {
        match self {
            Step::Bind => Failure::EndpointBindFailed,
            Step::Dial => Failure::ConnectFailed,
            Step::Handshake => Failure::HandshakeFailed,
            Step::OpenStream => Failure::StreamOpenFailed,
        }
    }
}

/// A background task. The endpoint and the session each have one, which
/// drives their traffic for as long as they live. The run never waits for
/// these tasks.
#[derive(Clone, Copy, Debug, PartialEq, Eq)]
pub enum Driver {
    /// The task that drives the local endpoint.
    Endpoint,
    /// The task that drives the session with the remote.
    Session,
}

/// What the caller observed of a step.
#[derive(Clone, Copy, Debug, PartialEq, Eq)]
pub enum ConnectorEvent {
    Succeeded(Step),
    Failed(Step),
}

impl ConnectorEvent {
    /// The step that the event is about.
    pub open spec fn subject(self) -> Step {
        match self {
            ConnectorEvent::Succeeded(step) => step,
            ConnectorEvent::Failed(step) => step,
        }
    }

    /// The step that the event is about.
    pub fn step(self) -> (step: Step)
        ensures
            step == self.subject(),
    {
        match self {
            ConnectorEvent::Succeeded(step) => step,
            ConnectorEvent::Failed(step) => step,
        }
    }
}

/// Where a connection attempt stands.
#[derive(Clone, Copy, Debug, PartialEq, Eq)]
pub enum Phase {
    /// The given step is due: the caller is doing its work.
    Awaiting(Step),
    /// All four steps succeeded: the stream is open.
    Established,
    /// A step failed. Nothing further will be attempted.
    Failed(Failure),
}

impl Phase {
    /// Whether an event is the one this phase waits for: the attempt is still
    /// under way and the event reports on the step that is due.
    pub open spec fn accepts(self, event: ConnectorEvent) -> bool {
        self == Phase::Awaiting(event.subject())
    }

    /// The phase that follows on an event. An event that is not accepted
    /// changes nothing.
    pub open spec fn after(self, event: ConnectorEvent) -> Phase {
        if !self.accepts(event) {
            self
        } else {
            match event {
                ConnectorEvent::Failed(step) => Phase::Failed(step.failure_kind()),
                ConnectorEvent::Succeeded(step) => match step.following() {
                    Some(next) => Phase::Awaiting(next),
                    None => Phase::Established,
                },
            }
        }
    }

    /// The phase reached from this one by a whole sequence of events, oldest
    /// first.
    pub open spec fn after_all(self, events: Seq<ConnectorEvent>) -> Phase
        decreases events.len(),
    {
        if events.len() == 0 {
            self
        } else {
            self.after_all(events.drop_last()).after(events.last())
        }
    }

    /// How many steps have succeeded, as far as the phase tells: a failed
    /// attempt counts for none.
    pub open spec fn progress(self) -> nat {
        match self {
            Phase::Awaiting(step) => step.position(),
            Phase::Established => 4,
            Phase::Failed(_) => 0,
        }
    }

    /// Whether the attempt is over, one way or the other.
    pub open spec fn is_final(self) -> bool {
        self is Established || self is Failed
    }

    /// Tells whether `event` reports on the step that is due.
    pub fn is_due(self, event: ConnectorEvent) -> (due: bool)
        ensures
            due == self.accepts(event),
    {
        match self {
            Phase::Awaiting(step) => step == event.step(),
            _ => false,
        }
    }

    /// Moves on by one event.
    ///
    /// Success of the step that is due makes the next step due, or, after the
    /// last, establishes the connection. Its failure ends the attempt with the
    /// failure of that step. Any other event is out of place and is ignored.
    pub fn advance(self, event: ConnectorEvent) -> (next: Phase)
        ensures
            next == self.after(event),
    {
        if !self.is_due(event) {
            return self;
        }
        match event {
            ConnectorEvent::Failed(step) => Phase::Failed(step.failure()),
            ConnectorEvent::Succeeded(step) => match step.next() {
                Some(next) => Phase::Awaiting(next),
                None => Phase::Established,
            },
        }
    }
}

/// A connection attempt: where to connect, which name the remote must prove,
/// and how far the attempt has come.
#[derive(Clone, Debug, PartialEq, Eq)]
pub struct Connector {
    /// The address to connect to.
    pub remote: ResolvedAddress,
    /// The name that the remote's credential is checked against.
    pub server_name: String,
    /// How far the attempt has come.
    pub phase: Phase,
}

/// A [`Connector`] as a mathematical value.
pub struct ConnectorView {
    pub remote: ResolvedAddress,
    pub server_name: Seq<char>,
    pub phase: Phase,
}

impl View for Connector {
    type V = ConnectorView;

    open spec fn view(&self) -> ConnectorView {
        ConnectorView { remote: self.remote, server_name: self.server_name@, phase: self.phase }
    }
}

impl ConnectorView {
    /// A fresh attempt: nothing done yet, the endpoint is to be created.
    pub open spec fn fresh(remote: ResolvedAddress, server_name: Seq<char>) -> ConnectorView {
        ConnectorView { remote, server_name, phase: initial_phase() }
    }

    /// The attempt after an event: only the phase moves.
    pub open spec fn after(self, event: ConnectorEvent) -> ConnectorView {
        ConnectorView { phase: self.phase.after(event), ..self }
    }
}

impl Connector {
    /// Starts an attempt towards `remote`, whose identity is to be checked
    /// against `server_name`. Creating the endpoint is due first.
    pub fn new(remote: ResolvedAddress, server_name: &str) -> (connector: Connector)
        ensures
            connector@ == ConnectorView::fresh(remote, server_name@),
    {
        Connector {
            remote,
            server_name: server_name.to_owned(),
            phase: Phase::Awaiting(Step::Bind),
        }
    }

    /// Takes in what the caller observed. The address and the name never
    /// change; the phase moves as [`Phase::advance`] says.
    pub fn step(self, event: ConnectorEvent) -> (next: Connector)
        ensures
            next@ == self@.after(event),
    {
        let phase = self.phase.advance(event);
        Connector { remote: self.remote, server_name: self.server_name, phase }
    }

    /// The step whose work the caller has to do now, if the attempt is still
    /// under way.
    pub fn due(&self) -> (step: Option<Step>)
        ensures
            step == match self.phase {
                Phase::Awaiting(due) => Some(due),
                _ => None::<Step>,
            },
            step is None <==> self.phase.is_final(),
    {
        match self.phase {
            Phase::Awaiting(step) => Some(step),
            _ => None,
        }
    }
}

/// The two halves of the one stream that a session opens: `receive` carries
/// what the remote sends, `transmit` carries what is sent to it.
#[derive(Debug, PartialEq, Eq)]
pub struct DuplexStream<R, W> {
    pub receive: R,
    pub transmit: W,
}

impl<R, W> DuplexStream<R, W> {
    /// Names the halves of a freshly opened stream.
    ///
    /// A session hands out the sending half first and the receiving half
    /// second. The relay reads from the one and writes to the other, so here
    /// each half is put under its name and the order of the pair is left
    /// behind.
    pub fn from_session(halves: (W, R)) -> (stream: Self)
        ensures
            stream.receive == halves.1,
            stream.transmit == halves.0,
    {
        let (transmit, receive) = halves;
        DuplexStream { receive, transmit }
    }

    /// The halves in the order in which the relay takes them: the receiving
    /// half first, the sending half second.
    pub fn into_halves(self) -> (halves: (R, W))
        ensures
            halves.0 == self.receive,
            halves.1 == self.transmit,
    {
        (self.receive, self.transmit)
    }
}

/// The start of every attempt: the endpoint is yet to be created.
pub open spec fn initial_phase() -> Phase {
    Phase::Awaiting(Step::Bind)
}

/// The step that has the given number of steps before it.
pub open spec fn step_at(position: nat) -> Step {
    if position == 0 {
        Step::Bind
    } else if position == 1 {
        Step::Dial
    } else if position == 2 {
        Step::Handshake
    } else {
        Step::OpenStream
    }
}

/// Whether `events` reports the success of each of the first `count` steps,
/// each one later than the one before it.
spec fn successes_in_order(events: Seq<ConnectorEvent>, count: nat) -> bool
    decreases count,
{
    count == 0 || exists|i: int|
        0 <= i < events.len() && #[trigger] events[i] == ConnectorEvent::Succeeded(
            step_at((count - 1) as nat),
        ) && successes_in_order(events.take(i), (count - 1) as nat)
}

/// Handling one sequence of events and then another is handling both in a row.
pub proof fn after_all_splits(phase: Phase, first: Seq<ConnectorEvent>, rest: Seq<ConnectorEvent>)
    ensures
        phase.after_all(first + rest) == phase.after_all(first).after_all(rest),
    decreases rest.len(),
{
    if rest.len() == 0 {
        assert(first + rest =~= first);
    } else {
        after_all_splits(phase, first, rest.drop_last());
        assert((first + rest).drop_last() =~= first + rest.drop_last());
    }
}

/// An attempt that is over stays as it ended, whatever is reported afterwards:
/// no event leads out of `Established` or `Failed`.
pub proof fn final_phase_stays(phase: Phase, events: Seq<ConnectorEvent>)
    requires
        phase.is_final(),
    ensures
        phase.after_all(events) == phase,
    decreases events.len(),
{
    if events.len() > 0 {
        final_phase_stays(phase, events.drop_last());
    }
}

proof fn successes_survive_one_more(events: Seq<ConnectorEvent>, count: nat)
    requires
        events.len() > 0,
        successes_in_order(events.drop_last(), count),
    ensures
        successes_in_order(events, count),
{
    if count > 0 {
        let earlier = events.drop_last();
        let i = choose|i: int|
            0 <= i < earlier.len() && #[trigger] earlier[i] == ConnectorEvent::Succeeded(
                step_at((count - 1) as nat),
            ) && successes_in_order(earlier.take(i), (count - 1) as nat);
        assert(events.take(i) =~= earlier.take(i));
        assert(events[i] == earlier[i]);
    }
}

proof fn progress_is_witnessed(events: Seq<ConnectorEvent>)
    ensures
        successes_in_order(events, initial_phase().after_all(events).progress()),
    decreases events.len(),
{
    if events.len() > 0 {
        let earlier = events.drop_last();
        let before = initial_phase().after_all(earlier);
        let event = events.last();
        progress_is_witnessed(earlier);
        if !before.accepts(event) {
            successes_survive_one_more(events, before.progress());
        } else if let ConnectorEvent::Succeeded(step) = event {
            let i = events.len() - 1;
            assert(events.take(i) =~= earlier);
            assert(events[i] == ConnectorEvent::Succeeded(step_at(step.position())));
        }
    }
}

proof fn latest_success(events: Seq<ConnectorEvent>, count: nat) -> (i: int)
    requires
        count > 0,
        successes_in_order(events, count),
    ensures
        0 <= i < events.len(),
        events[i] == ConnectorEvent::Succeeded(step_at((count - 1) as nat)),
        successes_in_order(events.take(i), (count - 1) as nat),
{
    choose|i: int|
        0 <= i < events.len() && #[trigger] events[i] == ConnectorEvent::Succeeded(
            step_at((count - 1) as nat),
        ) && successes_in_order(events.take(i), (count - 1) as nat)
}

/// Whether the four positions hold, one after another, the successes of
/// creating the endpoint, of starting the connection, of the handshake and of
/// opening the stream.
pub open spec fn steps_succeeded_at(
    events: Seq<ConnectorEvent>,
    bind: int,
    dial: int,
    handshake: int,
    open_stream: int,
) -> bool {
    &&& 0 <= bind < dial < handshake < open_stream < events.len()
    &&& events[bind] == ConnectorEvent::Succeeded(Step::Bind)
    &&& events[dial] == ConnectorEvent::Succeeded(Step::Dial)
    &&& events[handshake] == ConnectorEvent::Succeeded(Step::Handshake)
    &&& events[open_stream] == ConnectorEvent::Succeeded(Step::OpenStream)
}

/// A stream is never handed out unless every step before it succeeded.
///
/// If the events reported since the start leave the attempt `Established`,
/// then among them are the successes of creating the endpoint, of starting
/// the connection, of the handshake and of opening the stream, in that order.
pub proof fn established_needs_every_step(events: Seq<ConnectorEvent>)
    requires
        initial_phase().after_all(events) == Phase::Established,
    ensures
        exists|b: int, d: int, h: int, o: int| steps_succeeded_at(events, b, d, h, o),
{
    progress_is_witnessed(events);
    let o = latest_success(events, 4);
    let h = latest_success(events.take(o), 3);
    let d = latest_success(events.take(o).take(h), 2);
    let b = latest_success(events.take(o).take(h).take(d), 1);
    assert(events[h] == events.take(o)[h]);
    assert(events[d] == events.take(o).take(h)[d]);
    assert(events[b] == events.take(o).take(h).take(d)[b]);
    assert(steps_succeeded_at(events, b, d, h, o));
}

/// A failure of the step that is due surfaces, and nothing reported later can
/// undo it.
///
/// If, after the first `at` events, a step is due and the next event reports
/// that this step failed, then the attempt ends with the failure of that step,
/// whatever the remaining events say. In particular it is never `Established`.
pub proof fn failure_is_final(events: Seq<ConnectorEvent>, at: int, step: Step)
    requires
        0 <= at < events.len(),
        initial_phase().after_all(events.take(at)) == Phase::Awaiting(step),
        events[at] == ConnectorEvent::Failed(step),
    ensures
        initial_phase().after_all(events) == Phase::Failed(step.failure_kind()),
{
    let head = events.take(at + 1);
    let tail = events.skip(at + 1);
    assert(head.drop_last() =~= events.take(at));
    assert(head.last() == events[at]);
    assert(initial_phase().after_all(head) == Phase::Failed(step.failure_kind()));
    assert(head + tail =~= events);
    after_all_splits(initial_phase(), head, tail);
    final_phase_stays(Phase::Failed(step.failure_kind()), tail);
}

} // verus!
