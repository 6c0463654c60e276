//! Relaying in both directions until both have drained.
//!
//! One direction copies local input into the stream, the other copies what
//! the remote sends to local output. They run side by side and neither waits
//! for the other. The relay is complete when both have finished; it fails as
//! soon as either fails.

use vstd::prelude::*;
use crate::error::Failure;

verus! {

/// How many bytes went each way in a relay that ran to completion.
#[derive(Clone, Copy, Debug, PartialEq, Eq)]
pub struct RelaySummary {
    pub bytes_transmitted: u64,
    pub bytes_received: u64,
}

/// One of the two copy directions.
#[derive(Clone, Copy, Debug, PartialEq, Eq, Structural)]
pub enum Direction {
    /// From local input to the remote.
    Transmit,
    /// From the remote to local output.
    Receive,
}

/// What the caller observed of a copy direction.
#[derive(Clone, Copy, Debug, PartialEq, Eq)]
pub enum RelayEvent {
    /// The direction drained: its source ended after this many bytes, all of
    /// them written.
    Finished(Direction, u64),
    /// The direction stopped on a read or write error. The two counts are the
    /// bytes that each direction had copied by then, as far as the caller can
    /// tell.
    Failed { direction: Direction, bytes_transmitted: Option<u64>, bytes_received: Option<u64> },
}

impl RelayEvent {
    /// The direction that the event is about.
    pub open spec fn subject(self) -> Direction {
        match self {
            RelayEvent::Finished(direction, _) => direction,
            RelayEvent::Failed { direction, .. } => direction,
        }
    }

    /// The direction that the event is about.
    pub fn direction(self) -> (direction: Direction)
        ensures
            direction == self.subject(),
    {
        match self {
            RelayEvent::Finished(direction, _) => direction,
            RelayEvent::Failed { direction, .. } => direction,
        }
    }
}

/// The count to report of a direction when the relay fails: its final count
/// if it had drained, else what the caller could tell of it.
pub open spec fn count_at_failure(drained: Option<u64>, observed: Option<u64>) -> Option<u64> {
    match drained {
        Some(bytes) => Some(bytes),
        None => observed,
    }
}

/// How a relay stands.
#[derive(Clone, Copy, Debug, PartialEq, Eq)]
pub enum RelayStatus {
    /// At least one direction is still copying, and none has failed.
    Running,
    /// Both directions drained.
    Completed(RelaySummary),
    /// A direction failed; the failure is `RelayIOFailed`.
    Failed(Failure),
}

/// A relay in progress: what is known of each direction so far.
#[derive(Clone, Copy, Debug, PartialEq, Eq)]
pub struct Relay {
    /// The bytes sent to the remote: the final count once that direction has
    /// drained; in a relay that failed, what the direction had copied by
    /// then, where known.
    pub transmitted: Option<u64>,
    /// The bytes received from the remote, in the same way.
    pub received: Option<u64>,
    /// Whether a direction has failed.
    pub failed: bool,
}

impl Relay {
    /// A relay that has just begun: both directions are copying.
    pub open spec fn fresh() -> Relay {
        Relay { transmitted: None, received: None, failed: false }
    }

    /// What is known of the count of a direction.
    pub open spec fn count(self, direction: Direction) -> Option<u64> {
        match direction {
            Direction::Transmit => self.transmitted,
            Direction::Receive => self.received,
        }
    }

    /// How the relay stands. A failure outweighs everything, and is reported
    /// with the counts reached before it; short of one, the relay is complete
    /// exactly when both directions have drained.
    pub open spec fn standing(self) -> RelayStatus {
        if self.failed {
            RelayStatus::Failed(
                Failure::RelayIOFailed {
                    bytes_transmitted: self.transmitted,
                    bytes_received: self.received,
                },
            )
        } else if self.transmitted is Some && self.received is Some {
            RelayStatus::Completed(
                RelaySummary {
                    bytes_transmitted: self.transmitted->0,
                    bytes_received: self.received->0,
                },
            )
        } else {
            RelayStatus::Running
        }
    }

    /// Whether an event is in place: the relay is running and the direction
    /// that the event is about has not drained yet.
    pub open spec fn accepts(self, event: RelayEvent) -> bool {
        self.standing() is Running && self.count(event.subject()) is None
    }

    /// The relay after an event. An event that is out of place changes
    /// nothing.
    pub open spec fn after(self, event: RelayEvent) -> Relay {
        if !self.accepts(event) {
            self
        } else {
            match event {
                RelayEvent::Finished(Direction::Transmit, bytes) => Relay {
                    transmitted: Some(bytes),
                    ..self
                },
                RelayEvent::Finished(Direction::Receive, bytes) => Relay {
                    received: Some(bytes),
                    ..self
                },
                RelayEvent::Failed { bytes_transmitted, bytes_received, .. } => Relay {
                    transmitted: count_at_failure(self.transmitted, bytes_transmitted),
                    received: count_at_failure(self.received, bytes_received),
                    failed: true,
                },
            }
        }
    }

    /// The relay after a whole sequence of events, oldest first.
    pub open spec fn after_all(self, events: Seq<RelayEvent>) -> Relay
        decreases events.len(),
    {
        if events.len() == 0 {
            self
        } else {
            self.after_all(events.drop_last()).after(events.last())
        }
    }

    /// Begins a relay: both directions are copying, nothing is counted yet.
    pub fn new() -> (relay: Relay)
        ensures
            relay == Relay::fresh(),
            relay.standing() is Running,
    {
        Relay { transmitted: None, received: None, failed: false }
    }

    /// Tells how the relay stands.
    ///
    /// On completion the summary holds the final counts of both directions.
    /// On failure it holds `RelayIOFailed` with the counts reached before the
    /// failure: of a direction that had drained its final count, of the
    /// others what was reported with the failure.
    pub fn status(&self) -> (status: RelayStatus)
        ensures
            status == self.standing(),
            status is Completed <==> !self.failed && self.transmitted is Some
                && self.received is Some,
            status is Failed <==> self.failed,
    {
        if self.failed {
            return RelayStatus::Failed(
                Failure::RelayIOFailed {
                    bytes_transmitted: self.transmitted,
                    bytes_received: self.received,
                },
            );
        }
        match (self.transmitted, self.received) {
            (Some(bytes_transmitted), Some(bytes_received)) => RelayStatus::Completed(
                RelaySummary { bytes_transmitted, bytes_received },
            ),
            _ => RelayStatus::Running,
        }
    }

    /// Tells whether `event` is in place.
    pub fn is_open_to(&self, event: RelayEvent) -> (open: bool)
        ensures
            open == self.accepts(event),
    {
        if self.failed {
            return false;
        }
        match event.direction() {
            Direction::Transmit => self.transmitted.is_none(),
            Direction::Receive => self.received.is_none(),
        }
    }

    /// Takes in what the caller observed.
    ///
    /// A direction that drains has its count recorded. A direction that fails
    /// fails the relay, and the counts that come with the failure are kept
    /// for each direction that had not drained. An event about a direction
    /// that has drained already, or one that arrives when the relay is
    /// complete or has failed, is ignored.
    pub fn step(self, event: RelayEvent) -> (next: Relay)
        ensures
            next == self.after(event),
    {
        if !self.is_open_to(event) {
            return self;
        }
        match event {
            RelayEvent::Finished(Direction::Transmit, bytes) => Relay {
                transmitted: Some(bytes),
                received: self.received,
                failed: self.failed,
            },
            RelayEvent::Finished(Direction::Receive, bytes) => Relay {
                transmitted: self.transmitted,
                received: Some(bytes),
                failed: self.failed,
            },
            RelayEvent::Failed { bytes_transmitted, bytes_received, .. } => Relay {
                transmitted: reached(self.transmitted, bytes_transmitted),
                received: reached(self.received, bytes_received),
                failed: true,
            },
        }
    }
}

/// The count to report of a direction when the relay fails.
fn reached(drained: Option<u64>, observed: Option<u64>) -> (count: Option<u64>)
    ensures
        count == count_at_failure(drained, observed),
{
    match drained {
        Some(bytes) => Some(bytes),
        None => observed,
    }
}

/// What is among the earlier events of a sequence is among all of them.
pub proof fn earlier_events_remain<E>(events: Seq<E>, wanted: E)
    requires
        events.len() > 0,
        events.drop_last().contains(wanted),
    ensures
        events.contains(wanted),
{
    let earlier = events.drop_last();
    let i = choose|i: int| 0 <= i < earlier.len() && earlier[i] == wanted;
    assert(events[i] == wanted);
}

/// Handling one sequence of events and then another is handling both in a row.
pub proof fn relay_after_all_splits(relay: Relay, first: Seq<RelayEvent>, rest: Seq<RelayEvent>)
    ensures
        relay.after_all(first + rest) == relay.after_all(first).after_all(rest),
    decreases rest.len(),
{
    if rest.len() == 0 {
        assert(first + rest =~= first);
    } else {
        relay_after_all_splits(relay, first, rest.drop_last());
        assert((first + rest).drop_last() =~= first + rest.drop_last());
    }
}

/// A relay that is complete or has failed stays as it ended, whatever is
/// reported afterwards.
pub proof fn ended_relay_stays(relay: Relay, events: Seq<RelayEvent>)
    requires
        !(relay.standing() is Running),
    ensures
        relay.after_all(events) == relay,
    decreases events.len(),
{
    if events.len() > 0 {
        ended_relay_stays(relay, events.drop_last());
    }
}

proof fn counts_are_witnessed(events: Seq<RelayEvent>, direction: Direction)
    ensures
        !Relay::fresh().after_all(events).failed ==> (Relay::fresh().after_all(events).count(
            direction,
        ) matches Some(bytes) ==> events.contains(RelayEvent::Finished(direction, bytes))),
    decreases events.len(),
{
    if events.len() > 0 {
        let earlier = events.drop_last();
        let before = Relay::fresh().after_all(earlier);
        let now = before.after(events.last());
        counts_are_witnessed(earlier, direction);
        if !now.failed {
            if let Some(bytes) = now.count(direction) {
                if before.count(direction) == Some(bytes) {
                    earlier_events_remain(events, RelayEvent::Finished(direction, bytes));
                } else {
                    assert(events[events.len() - 1] == RelayEvent::Finished(direction, bytes));
                }
            }
        }
    }
}

/// Completion takes both directions.
///
/// If the events reported since the relay began leave it `Completed`, then
/// among them are the draining of the sending direction and the draining of
/// the receiving direction, and the summary holds exactly the counts that
/// those two events gave. So a relay of which only one direction is known to
/// have drained is never complete.
pub proof fn completion_needs_both_directions(events: Seq<RelayEvent>, summary: RelaySummary)
    requires
        Relay::fresh().after_all(events).standing() == RelayStatus::Completed(summary),
    ensures
        events.contains(RelayEvent::Finished(Direction::Transmit, summary.bytes_transmitted)),
        events.contains(RelayEvent::Finished(Direction::Receive, summary.bytes_received)),
{
    counts_are_witnessed(events, Direction::Transmit);
    counts_are_witnessed(events, Direction::Receive);
}

/// The directions have no order between them: whichever of the two drains
/// first, the relay ends up the same.
pub proof fn draining_order_is_immaterial(relay: Relay, sent: u64, received: u64)
    ensures
        relay.after(RelayEvent::Finished(Direction::Transmit, sent)).after(
            RelayEvent::Finished(Direction::Receive, received),
        ) == relay.after(RelayEvent::Finished(Direction::Receive, received)).after(
            RelayEvent::Finished(Direction::Transmit, sent),
        ),
        Relay::fresh().after(RelayEvent::Finished(Direction::Transmit, sent)).after(
            RelayEvent::Finished(Direction::Receive, received),
        ).standing() == RelayStatus::Completed(
            RelaySummary { bytes_transmitted: sent, bytes_received: received },
        ),
{
}

/// A failure is reported with the counts reached before it.
///
/// When a direction that is still copying fails, the relay fails with
/// `RelayIOFailed`. For the direction that failed, the failure carries
/// exactly the count that was reported with it. For the other direction it
/// carries the final count if that direction had drained, and else the count
/// that was reported with the failure.
pub proof fn failure_carries_counts(
    relay: Relay,
    direction: Direction,
    bytes_transmitted: Option<u64>,
    bytes_received: Option<u64>,
)
    requires
        relay.accepts(RelayEvent::Failed { direction, bytes_transmitted, bytes_received }),
    ensures
        relay.after(
            RelayEvent::Failed { direction, bytes_transmitted, bytes_received },
        ).standing() == RelayStatus::Failed(
            Failure::RelayIOFailed {
                bytes_transmitted: count_at_failure(relay.transmitted, bytes_transmitted),
                bytes_received: count_at_failure(relay.received, bytes_received),
            },
        ),
        direction == Direction::Transmit ==> count_at_failure(relay.transmitted, bytes_transmitted)
            == bytes_transmitted,
        direction == Direction::Receive ==> count_at_failure(relay.received, bytes_received)
            == bytes_received,
{
}

/// A failure of a direction that is still copying fails the relay for good.
///
/// If, after the first `at` events, the relay is running and the next event
/// reports the failure of a direction that has not drained, then the relay
/// ends as that event left it, `Failed` with the counts reached by then,
/// whatever the remaining events say.
pub proof fn relay_failure_is_final(events: Seq<RelayEvent>, at: int)
    requires
        0 <= at < events.len(),
        events[at] is Failed,
        Relay::fresh().after_all(events.take(at)).accepts(events[at]),
    ensures
        Relay::fresh().after_all(events) == Relay::fresh().after_all(events.take(at)).after(
            events[at],
        ),
        Relay::fresh().after_all(events).standing() is Failed,
{
    let head = events.take(at + 1);
    let tail = events.skip(at + 1);
    let failed = Relay::fresh().after_all(head);
    assert(head.drop_last() =~= events.take(at));
    assert(head.last() == events[at]);
    assert(failed == Relay::fresh().after_all(events.take(at)).after(events[at]));
    assert(head + tail =~= events);
    relay_after_all_splits(Relay::fresh(), head, tail);
    ended_relay_stays(failed, tail);
}

} // verus!
