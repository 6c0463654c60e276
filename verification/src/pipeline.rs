//! The whole run: resolve, connect, relay, in that order.
//!
//! A [`Pipeline`] is driven by its caller. The caller performs what an
//! [`Action`] says (a lookup, a step of the connection attempt, the two
//! copies) and reports the result as an [`Event`]; [`Pipeline::step`] then
//! says what follows. The first failure of any stage ends the run.

use vstd::prelude::*;
use crate::address::{chosen_address, IpAddress, ResolvedAddress};
use crate::connector::{
    step_at, Connector, ConnectorEvent, ConnectorView, Driver, Phase, Step,
};
use crate::error::Failure;
use crate::options::Options;
use crate::relay::{
    count_at_failure, earlier_events_remain, Direction, Relay, RelayEvent, RelayStatus,
    RelaySummary,
};

verus! {

/// Where a run stands.
#[derive(Clone, Debug, PartialEq, Eq)]
pub enum Stage {
    /// Nothing has happened yet.
    Start,
    /// The lookup of the hostname is under way.
    Resolving,
    /// The connection attempt is under way.
    Connecting(Connector),
    /// The stream is open and bytes are being copied.
    Relaying(Relay),
    /// The relay ran to completion.
    Done(RelaySummary),
    /// A stage failed. This is the one failure of the run.
    Failed(Failure),
}

/// A [`Stage`] as a mathematical value.
pub enum StageView {
    Start,
    Resolving,
    Connecting(ConnectorView),
    Relaying(Relay),
    Done(RelaySummary),
    Failed(Failure),
}

impl View for Stage {
    type V = StageView;

    open spec fn view(&self) -> StageView {
        match self {
            Stage::Start => StageView::Start,
            Stage::Resolving => StageView::Resolving,
            Stage::Connecting(connector) => StageView::Connecting(connector@),
            Stage::Relaying(relay) => StageView::Relaying(*relay),
            Stage::Done(summary) => StageView::Done(*summary),
            Stage::Failed(failure) => StageView::Failed(*failure),
        }
    }
}

/// What the caller reports to the pipeline.
#[derive(Clone, Debug, PartialEq, Eq)]
pub enum Event {
    /// The run is to begin.
    Begin,
    /// The lookup answered with these candidates, in the resolver's order.
    LookupFinished(Vec<IpAddress>),
    /// The resolver could not be set up, or the lookup failed.
    LookupFailed,
    /// A step of the connection attempt succeeded or failed.
    Connector(ConnectorEvent),
    /// A copy direction drained or failed.
    Relay(RelayEvent),
    /// A background task ended with an error. That is worth a diagnostic and
    /// nothing more: the run goes on as if nothing had happened.
    DriverFailed(Driver),
}

/// An [`Event`] as a mathematical value.
pub enum EventView {
    Begin,
    LookupFinished(Seq<IpAddress>),
    LookupFailed,
    Connector(ConnectorEvent),
    Relay(RelayEvent),
    DriverFailed(Driver),
}

impl View for Event {
    type V = EventView;

    open spec fn view(&self) -> EventView {
        match self {
            Event::Begin => EventView::Begin,
            Event::LookupFinished(candidates) => EventView::LookupFinished(candidates@),
            Event::LookupFailed => EventView::LookupFailed,
            Event::Connector(event) => EventView::Connector(*event),
            Event::Relay(event) => EventView::Relay(*event),
            Event::DriverFailed(driver) => EventView::DriverFailed(*driver),
        }
    }
}

/// What the pipeline asks of its caller.
#[derive(Clone, Debug, PartialEq, Eq)]
pub enum Action {
    /// Look up this hostname, once, with the system's resolver.
    Resolve { hostname: String },
    /// Create the local endpoint on whatever local address and port number
    /// the system picks, and leave it to a background task at once.
    BindEndpoint,
    /// Start connecting to `remote`, validating it against `server_name`.
    Dial { remote: ResolvedAddress, server_name: String },
    /// Wait for the handshake to finish. The session that comes of it is
    /// left to a background task of its own and kept alive until the run
    /// ends.
    AwaitHandshake,
    /// Open one bidirectional stream on the session.
    OpenStream,
    /// The connection is established: start copying in both directions.
    StartRelay,
    /// One direction has drained; keep waiting for the other.
    Wait,
    /// The run succeeded: report the summary and exit with code 0.
    Finish(RelaySummary),
    /// The run failed: print the failure once and exit with a code other
    /// than 0.
    Abort(Failure),
    /// The event calls for nothing: it was out of place, or it told of a
    /// background task. Nothing changed.
    Ignore,
}

/// An [`Action`] as a mathematical value.
pub enum ActionView {
    Resolve { hostname: Seq<char> },
    BindEndpoint,
    Dial { remote: ResolvedAddress, server_name: Seq<char> },
    AwaitHandshake,
    OpenStream,
    StartRelay,
    Wait,
    Finish(RelaySummary),
    Abort(Failure),
    Ignore,
}

impl View for Action {
    type V = ActionView;

    open spec fn view(&self) -> ActionView {
        match self {
            Action::Resolve { hostname } => ActionView::Resolve { hostname: hostname@ },
            Action::BindEndpoint => ActionView::BindEndpoint,
            Action::Dial { remote, server_name } => ActionView::Dial {
                remote: *remote,
                server_name: server_name@,
            },
            Action::AwaitHandshake => ActionView::AwaitHandshake,
            Action::OpenStream => ActionView::OpenStream,
            Action::StartRelay => ActionView::StartRelay,
            Action::Wait => ActionView::Wait,
            Action::Finish(summary) => ActionView::Finish(*summary),
            Action::Abort(failure) => ActionView::Abort(*failure),
            Action::Ignore => ActionView::Ignore,
        }
    }
}

/// A [`Pipeline`] as a mathematical value: the target, the name that the
/// remote must prove to be, and the stage.
pub struct PipelineView {
    pub hostname: Seq<char>,
    pub port: u16,
    pub identity: Seq<char>,
    pub stage: StageView,
}

impl StageView {
    /// Whether the run is over.
    pub open spec fn is_final(self) -> bool {
        self is Done || self is Failed
    }

    /// The place of a stage in the order of a run. A failed run has no place
    /// in it.
    pub open spec fn rank(self) -> nat {
        match self {
            StageView::Start => 0,
            StageView::Resolving => 1,
            StageView::Connecting(_) => 2,
            StageView::Relaying(_) => 3,
            StageView::Done(_) => 4,
            StageView::Failed(_) => 0,
        }
    }

    /// How many milestones a run at this stage has behind it. The milestones
    /// of a run are, in order: its beginning, a lookup that found an address,
    /// and the success of each of the four steps of the connection attempt.
    /// A failed run counts for none.
    pub open spec fn progress(self) -> nat {
        match self {
            StageView::Start => 0,
            StageView::Resolving => 1,
            StageView::Connecting(connector) => 2 + connector.phase.progress(),
            StageView::Relaying(_) => 6,
            StageView::Done(_) => 6,
            StageView::Failed(_) => 0,
        }
    }
}

impl PipelineView {
    /// A run that has not begun.
    pub open spec fn fresh(hostname: Seq<char>, port: u16, identity: Seq<char>) -> PipelineView {
        PipelineView { hostname, port, identity, stage: StageView::Start }
    }

    /// What holds of every pipeline: a connection attempt held in the stage
    /// is under way, towards the target's port and with the run's identity;
    /// a relay held in the stage is running.
    pub open spec fn wf(self) -> bool {
        match self.stage {
            StageView::Connecting(connector) => {
                &&& connector.phase is Awaiting
                &&& connector.server_name == self.identity
                &&& connector.remote.port == self.port
            },
            StageView::Relaying(relay) => relay.standing() is Running,
            _ => true,
        }
    }

    /// Whether an event is in place at this stage. The failure of a
    /// background task is in place at none.
    pub open spec fn accepts(self, event: EventView) -> bool {
        match (self.stage, event) {
            (StageView::Start, EventView::Begin) => true,
            (StageView::Resolving, EventView::LookupFinished(_)) => true,
            (StageView::Resolving, EventView::LookupFailed) => true,
            (StageView::Connecting(connector), EventView::Connector(e)) => connector.phase.accepts(
                e,
            ),
            (StageView::Relaying(relay), EventView::Relay(e)) => relay.accepts(e),
            _ => false,
        }
    }

    /// The stage that follows on an event that is in place.
    pub open spec fn stage_after(self, event: EventView) -> StageView {
        match (self.stage, event) {
            (StageView::Start, EventView::Begin) => StageView::Resolving,
            (StageView::Resolving, EventView::LookupFinished(candidates)) => match chosen_address(
                candidates,
                self.port,
            ) {
                Ok(address) => StageView::Connecting(ConnectorView::fresh(address, self.identity)),
                Err(failure) => StageView::Failed(failure),
            },
            (StageView::Resolving, EventView::LookupFailed) => StageView::Failed(
                Failure::LookupFailed,
            ),
            (StageView::Connecting(connector), EventView::Connector(e)) => match connector.phase.after(
                e,
            ) {
                Phase::Awaiting(_) => StageView::Connecting(connector.after(e)),
                Phase::Established => StageView::Relaying(Relay::fresh()),
                Phase::Failed(failure) => StageView::Failed(failure),
            },
            (StageView::Relaying(relay), EventView::Relay(e)) => match relay.after(e).standing() {
                RelayStatus::Running => StageView::Relaying(relay.after(e)),
                RelayStatus::Completed(summary) => StageView::Done(summary),
                RelayStatus::Failed(failure) => StageView::Failed(failure),
            },
            _ => self.stage,
        }
    }

    /// The pipeline after an event. An event that is out of place changes
    /// nothing; the target and the identity never change.
    pub open spec fn after(self, event: EventView) -> PipelineView {
        if self.accepts(event) {
            PipelineView { stage: self.stage_after(event), ..self }
        } else {
            self
        }
    }

    /// What the caller has to do at this stage.
    pub open spec fn directive(self) -> ActionView {
        match self.stage {
            StageView::Start => ActionView::Ignore,
            StageView::Resolving => ActionView::Resolve { hostname: self.hostname },
            StageView::Connecting(connector) => match connector.phase {
                Phase::Awaiting(Step::Bind) => ActionView::BindEndpoint,
                Phase::Awaiting(Step::Dial) => ActionView::Dial {
                    remote: connector.remote,
                    server_name: connector.server_name,
                },
                Phase::Awaiting(Step::Handshake) => ActionView::AwaitHandshake,
                Phase::Awaiting(Step::OpenStream) => ActionView::OpenStream,
                _ => ActionView::Ignore,
            },
            StageView::Relaying(relay) => if relay == Relay::fresh() {
                ActionView::StartRelay
            } else {
                ActionView::Wait
            },
            StageView::Done(summary) => ActionView::Finish(summary),
            StageView::Failed(failure) => ActionView::Abort(failure),
        }
    }

    /// What the pipeline asks for in answer to an event: the work of the
    /// stage that the event led to, or nothing where the event was out of
    /// place.
    pub open spec fn action_after(self, event: EventView) -> ActionView {
        if self.accepts(event) {
            self.after(event).directive()
        } else {
            ActionView::Ignore
        }
    }

    /// The pipeline after a whole sequence of events, oldest first.
    pub open spec fn after_all(self, events: Seq<EventView>) -> PipelineView
        decreases events.len(),
    {
        if events.len() == 0 {
            self
        } else {
            self.after_all(events.drop_last()).after(events.last())
        }
    }
}

/// A run from its start to its end.
#[derive(Debug)]
pub struct Pipeline {
    options: Options,
    stage: Stage,
}

impl View for Pipeline {
    type V = PipelineView;

    closed spec fn view(&self) -> PipelineView {
        PipelineView {
            hostname: self.options.hostname@,
            port: self.options.port,
            identity: self.options.identity(),
            stage: self.stage@,
        }
    }
}

impl Pipeline {
    #[verifier::type_invariant]
    spec fn well_formed(self) -> bool {
        self@.wf()
    }

    /// A run for these options that has not begun.
    pub fn new(options: Options) -> (pipeline: Pipeline)
        ensures
            pipeline@ == PipelineView::fresh(options.hostname@, options.port, options.identity()),
            pipeline@.wf(),
    {
        Pipeline { options, stage: Stage::Start }
    }

    /// The stage of the run.
    pub fn stage(&self) -> (stage: &Stage)
        ensures
            stage@ == self@.stage,
            self@.wf(),
    {
        proof {
            use_type_invariant(self);
        }
        &self.stage
    }

    /// The hostname of the target.
    pub fn hostname(&self) -> (hostname: &str)
        ensures
            hostname@ == self@.hostname,
    {
        self.options.hostname.as_str()
    }

    /// The port number of the target.
    pub fn port(&self) -> (port: u16)
        ensures
            port == self@.port,
    {
        self.options.port
    }

    /// The name that the remote must prove to be.
    pub fn server_name(&self) -> (name: &str)
        ensures
            name@ == self@.identity,
    {
        self.options.server_name()
    }

    /// How the run ended: the summary of a relay that ran to completion, or
    /// the failure that ended the run. `None` while the run is under way.
    pub fn outcome(&self) -> (outcome: Option<Result<RelaySummary, Failure>>)
        ensures
            outcome == match self@.stage {
                StageView::Done(summary) => Some(Ok::<RelaySummary, Failure>(summary)),
                StageView::Failed(failure) => Some(Err::<RelaySummary, Failure>(failure)),
                _ => None,
            },
    {
        match &self.stage {
            Stage::Done(summary) => Some(Ok(*summary)),
            Stage::Failed(failure) => Some(Err(*failure)),
            _ => None,
        }
    }

    /// The exit code of the process once the run is over: 0 after a relay
    /// that ran to completion, 1 after a failure. `None` while the run is
    /// under way.
    pub fn exit_code(&self) -> (code: Option<u8>)
        ensures
            self@.stage is Done <==> code == Some(0u8),
            self@.stage is Failed <==> code == Some(1u8),
            !self@.stage.is_final() <==> code is None,
    {
        match &self.stage {
            Stage::Done(_) => Some(0),
            Stage::Failed(_) => Some(1),
            _ => None,
        }
    }

    /// Takes in what the caller observed and says what follows.
    ///
    /// The stages follow one another strictly: `Begin` starts the lookup; the
    /// lookup's answer picks the address and starts the connection attempt,
    /// or fails the run where there is no address; each step of the attempt
    /// that succeeds makes the next one due, and the last one starts the
    /// relay; the relay ends the run when both directions have drained. The
    /// first failure ends the run. An event that the stage does not wait for
    /// is ignored, and so is the failure of a background task at any stage.
    pub fn step(self, event: Event) -> (result: (Pipeline, Action))
        ensures
            result.0@ == self@.after(event@),
            result.1@ == self@.action_after(event@),
            result.0@.wf(),
    {
        proof {
            use_type_invariant(&self);
        }
        let Pipeline { options, stage } = self;
        match (stage, event) {
            (Stage::Start, Event::Begin) => {
                let hostname = options.hostname.clone();
                (Pipeline { options, stage: Stage::Resolving }, Action::Resolve { hostname })
            },
            (Stage::Resolving, Event::LookupFinished(candidates)) => {
                match options.get_address(candidates.as_slice()) {
                    Ok(address) => {
                        let connector = options.connect(address);
                        (
                            Pipeline { options, stage: Stage::Connecting(connector) },
                            Action::BindEndpoint,
                        )
                    },
                    Err(failure) => (
                        Pipeline { options, stage: Stage::Failed(failure) },
                        Action::Abort(failure),
                    ),
                }
            },
            (Stage::Resolving, Event::LookupFailed) => (
                Pipeline { options, stage: Stage::Failed(Failure::LookupFailed) },
                Action::Abort(Failure::LookupFailed),
            ),
            (Stage::Connecting(connector), Event::Connector(e)) => {
                if !connector.phase.is_due(e) {
                    return (Pipeline { options, stage: Stage::Connecting(connector) }, Action::Ignore);
                }
                let connector = connector.step(e);
                match connector.phase {
                    Phase::Established => (
                        Pipeline { options, stage: Stage::Relaying(Relay::new()) },
                        Action::StartRelay,
                    ),
                    Phase::Failed(failure) => (
                        Pipeline { options, stage: Stage::Failed(failure) },
                        Action::Abort(failure),
                    ),
                    Phase::Awaiting(due) => {
                        let action = match due {
                            Step::Bind => Action::BindEndpoint,
                            Step::Dial => Action::Dial {
                                remote: connector.remote,
                                server_name: connector.server_name.clone(),
                            },
                            Step::Handshake => Action::AwaitHandshake,
                            Step::OpenStream => Action::OpenStream,
                        };
                        (Pipeline { options, stage: Stage::Connecting(connector) }, action)
                    },
                }
            },
            (Stage::Relaying(relay), Event::Relay(e)) => {
                if !relay.is_open_to(e) {
                    return (Pipeline { options, stage: Stage::Relaying(relay) }, Action::Ignore);
                }
                let relay = relay.step(e);
                match relay.status() {
                    RelayStatus::Running => (
                        Pipeline { options, stage: Stage::Relaying(relay) },
                        Action::Wait,
                    ),
                    RelayStatus::Completed(summary) => (
                        Pipeline { options, stage: Stage::Done(summary) },
                        Action::Finish(summary),
                    ),
                    RelayStatus::Failed(failure) => (
                        Pipeline { options, stage: Stage::Failed(failure) },
                        Action::Abort(failure),
                    ),
                }
            },
            (stage, _) => (Pipeline { options, stage }, Action::Ignore),
        }
    }
}

/// Whether an event is the milestone with the given number of milestones
/// before it.
spec fn is_milestone(event: EventView, index: nat) -> bool {
    if index == 0 {
        event is Begin
    } else if index == 1 {
        event matches EventView::LookupFinished(candidates) && candidates.len() > 0
    } else {
        event == EventView::Connector(ConnectorEvent::Succeeded(step_at((index - 2) as nat)))
    }
}

/// Whether `events` holds the first `count` milestones of a run, each one
/// later than the one before it.
spec fn milestones_in_order(events: Seq<EventView>, count: nat) -> bool
    decreases count,
{
    count == 0 || exists|i: int|
        0 <= i < events.len() && is_milestone(#[trigger] events[i], (count - 1) as nat)
            && milestones_in_order(events.take(i), (count - 1) as nat)
}

/// Every event leaves a pipeline as it should be.
pub proof fn step_keeps_well_formed(pipeline: PipelineView, event: EventView)
    requires
        pipeline.wf(),
    ensures
        pipeline.after(event).wf(),
{
}

/// A run that is over stays as it ended: no event leads out of `Done` or
/// `Failed`, and none is answered with anything to do. So a run surfaces
/// one failure at most.
pub proof fn ended_run_stays(pipeline: PipelineView, events: Seq<EventView>)
    requires
        pipeline.stage.is_final(),
    ensures
        pipeline.after_all(events) == pipeline,
        forall|event: EventView| #[trigger] pipeline.action_after(event) == ActionView::Ignore,
    decreases events.len(),
{
    if events.len() > 0 {
        ended_run_stays(pipeline, events.drop_last());
    }
}

/// The stages follow one another strictly.
///
/// An event leaves the target and the identity alone. It leaves the stage
/// where it is or moves it to the next in the order `Start`, `Resolving`,
/// `Connecting`, `Relaying`, `Done`, or else fails the run; and only a run
/// that is resolving, connecting or relaying can fail.
pub proof fn stages_follow_in_order(pipeline: PipelineView, event: EventView)
    requires
        pipeline.wf(),
    ensures
        pipeline.after(event).hostname == pipeline.hostname,
        pipeline.after(event).port == pipeline.port,
        pipeline.after(event).identity == pipeline.identity,
        pipeline.after(event).stage is Failed ==> pipeline.stage is Failed
            || pipeline.stage is Resolving || pipeline.stage is Connecting
            || pipeline.stage is Relaying,
        !(pipeline.after(event).stage is Failed) ==> !(pipeline.stage is Failed) && (
        pipeline.after(event).stage.rank() == pipeline.stage.rank()
            || pipeline.after(event).stage.rank() == pipeline.stage.rank() + 1),
{
}

/// A lookup without candidates fails the run with `NoDnsRecord`, and the run
/// then asks for nothing more: no connection is ever attempted.
pub proof fn empty_lookup_ends_run(pipeline: PipelineView, later: Seq<EventView>)
    requires
        pipeline.stage is Resolving,
    ensures
        pipeline.after(EventView::LookupFinished(Seq::empty())).stage == StageView::Failed(
            Failure::NoDnsRecord,
        ),
        pipeline.action_after(EventView::LookupFinished(Seq::empty())) == ActionView::Abort(
            Failure::NoDnsRecord,
        ),
        pipeline.after(EventView::LookupFinished(Seq::empty())).after_all(later)
            == pipeline.after(EventView::LookupFinished(Seq::empty())),
{
    ended_run_stays(pipeline.after(EventView::LookupFinished(Seq::empty())), later);
}

/// The failure of a background task is never propagated: at whatever stage it
/// is reported, the run stays exactly as it was and nothing is asked for.
pub proof fn driver_failure_changes_nothing(pipeline: PipelineView, driver: Driver)
    ensures
        pipeline.after(EventView::DriverFailed(driver)) == pipeline,
        pipeline.action_after(EventView::DriverFailed(driver)) == ActionView::Ignore,
{
}

/// A step of the connection attempt that fails ends the run with the failure
/// of that step, and the run then asks for nothing more: no later step is
/// attempted, no stream is opened and no relay starts.
pub proof fn failed_step_ends_run(
    pipeline: PipelineView,
    connector: ConnectorView,
    step: Step,
    later: Seq<EventView>,
)
    requires
        pipeline.stage == StageView::Connecting(connector),
        connector.phase == Phase::Awaiting(step),
    ensures
        pipeline.after(EventView::Connector(ConnectorEvent::Failed(step))).stage
            == StageView::Failed(step.failure_kind()),
        pipeline.action_after(EventView::Connector(ConnectorEvent::Failed(step)))
            == ActionView::Abort(step.failure_kind()),
        pipeline.after(EventView::Connector(ConnectorEvent::Failed(step))).after_all(later)
            == pipeline.after(EventView::Connector(ConnectorEvent::Failed(step))),
{
    ended_run_stays(pipeline.after(EventView::Connector(ConnectorEvent::Failed(step))), later);
}

/// A copy direction that fails while it is still copying ends the run with
/// `RelayIOFailed`, which carries the counts reached before the failure: of a
/// direction that had drained its final count, of the others what was
/// reported with the failure.
pub proof fn failed_copy_ends_run(
    pipeline: PipelineView,
    relay: Relay,
    failure: RelayEvent,
    later: Seq<EventView>,
)
    requires
        pipeline.stage == StageView::Relaying(relay),
        relay.accepts(failure),
        failure matches RelayEvent::Failed { .. },
    ensures
        pipeline.after(EventView::Relay(failure)).stage == StageView::Failed(
            Failure::RelayIOFailed {
                bytes_transmitted: count_at_failure(
                    relay.transmitted,
                    failure->bytes_transmitted,
                ),
                bytes_received: count_at_failure(relay.received, failure->bytes_received),
            },
        ),
        pipeline.action_after(EventView::Relay(failure)) == ActionView::Abort(
            Failure::RelayIOFailed {
                bytes_transmitted: count_at_failure(
                    relay.transmitted,
                    failure->bytes_transmitted,
                ),
                bytes_received: count_at_failure(relay.received, failure->bytes_received),
            },
        ),
        pipeline.after(EventView::Relay(failure)).after_all(later) == pipeline.after(
            EventView::Relay(failure),
        ),
{
    ended_run_stays(pipeline.after(EventView::Relay(failure)), later);
}

/// The connection is attempted towards the first candidate of the lookup, on
/// the target's port number, and the remote is validated against the run's
/// identity.
pub proof fn dial_goes_to_first_candidate(pipeline: PipelineView, candidates: Seq<IpAddress>)
    requires
        pipeline.stage is Resolving,
        candidates.len() > 0,
    ensures
        pipeline.action_after(EventView::LookupFinished(candidates)) == ActionView::BindEndpoint,
        pipeline.after(EventView::LookupFinished(candidates)).action_after(
            EventView::Connector(ConnectorEvent::Succeeded(Step::Bind)),
        ) == (ActionView::Dial {
            remote: ResolvedAddress { ip: candidates[0], port: pipeline.port },
            server_name: pipeline.identity,
        }),
{
}

/// Whenever the pipeline asks to dial, it is the address of the connection
/// attempt under way that is dialled, its port number is the target's, and
/// the name to validate is the run's identity.
pub proof fn dial_keeps_to_the_target(
    pipeline: PipelineView,
    event: EventView,
    remote: ResolvedAddress,
    server_name: Seq<char>,
)
    requires
        pipeline.wf(),
        pipeline.action_after(event) == (ActionView::Dial { remote, server_name }),
    ensures
        server_name == pipeline.identity,
        remote.port == pipeline.port,
        pipeline.stage matches StageView::Connecting(connector) && connector.remote == remote,
{
}

/// The relay starts on one occasion only: when the stream has just been
/// opened, as the last step of a connection attempt whose earlier steps are
/// all behind it.
pub proof fn relay_starts_on_open_stream(pipeline: PipelineView, event: EventView)
    requires
        pipeline.action_after(event) == ActionView::StartRelay,
    ensures
        pipeline.stage matches StageView::Connecting(connector) && connector.phase
            == Phase::Awaiting(Step::OpenStream),
        event == EventView::Connector(ConnectorEvent::Succeeded(Step::OpenStream)),
        pipeline.after(event).stage == StageView::Relaying(Relay::fresh()),
{
}

proof fn milestones_survive_one_more(events: Seq<EventView>, count: nat)
    requires
        events.len() > 0,
        milestones_in_order(events.drop_last(), count),
    ensures
        milestones_in_order(events, count),
{
    if count > 0 {
        let earlier = events.drop_last();
        let i = choose|i: int|
            0 <= i < earlier.len() && is_milestone(#[trigger] earlier[i], (count - 1) as nat)
                && milestones_in_order(earlier.take(i), (count - 1) as nat);
        assert(events.take(i) =~= earlier.take(i));
        assert(is_milestone(events[i], (count - 1) as nat));
    }
}

proof fn progress_is_witnessed(start: PipelineView, events: Seq<EventView>)
    requires
        start.stage is Start,
    ensures
        start.after_all(events).wf(),
        milestones_in_order(events, start.after_all(events).stage.progress()),
    decreases events.len(),
{
    if events.len() > 0 {
        let earlier = events.drop_last();
        let before = start.after_all(earlier);
        let event = events.last();
        let now = before.after(event);
        progress_is_witnessed(start, earlier);
        if now.stage.progress() == before.stage.progress() {
            milestones_survive_one_more(events, before.stage.progress());
        } else if now.stage.progress() > 0 {
            let i = events.len() - 1;
            assert(events.take(i) =~= earlier);
            if let StageView::Connecting(connector) = before.stage {
                let step = connector.phase->Awaiting_0;
                assert(step_at(step.position()) == step);
            }
            assert(is_milestone(events[i], before.stage.progress()));
        }
    }
}

proof fn latest_milestone(events: Seq<EventView>, count: nat) -> (i: int)
    requires
        count > 0,
        milestones_in_order(events, count),
    ensures
        0 <= i < events.len(),
        is_milestone(events[i], (count - 1) as nat),
        milestones_in_order(events.take(i), (count - 1) as nat),
{
    choose|i: int|
        0 <= i < events.len() && is_milestone(#[trigger] events[i], (count - 1) as nat)
            && milestones_in_order(events.take(i), (count - 1) as nat)
}

/// Whether the six positions hold, one after another, what a run needs
/// before it relays: its beginning, a lookup that found at least one address,
/// and the successes of creating the endpoint, of starting the connection, of
/// the handshake and of opening the stream.
pub open spec fn way_to_stream(
    events: Seq<EventView>,
    begin: int,
    lookup: int,
    bind: int,
    dial: int,
    handshake: int,
    open_stream: int,
) -> bool {
    &&& 0 <= begin < lookup < bind < dial < handshake < open_stream < events.len()
    &&& events[begin] is Begin
    &&& events[lookup] matches EventView::LookupFinished(candidates) && candidates.len() > 0
    &&& events[bind] == EventView::Connector(ConnectorEvent::Succeeded(Step::Bind))
    &&& events[dial] == EventView::Connector(ConnectorEvent::Succeeded(Step::Dial))
    &&& events[handshake] == EventView::Connector(ConnectorEvent::Succeeded(Step::Handshake))
    &&& events[open_stream] == EventView::Connector(ConnectorEvent::Succeeded(Step::OpenStream))
}

/// Nothing is relayed before the whole way to the stream has been gone.
///
/// If the events reported to a run since its start leave it `Relaying` or
/// `Done`, then among them are, in this order: the beginning of the run, a
/// lookup that found at least one address, and the successes of creating the
/// endpoint, of starting the connection, of the handshake and of opening the
/// stream.
pub proof fn relaying_needs_every_stage(start: PipelineView, events: Seq<EventView>)
    requires
        start.stage is Start,
        start.after_all(events).stage is Relaying || start.after_all(events).stage is Done,
    ensures
        exists|s: int, l: int, b: int, d: int, h: int, o: int|
            way_to_stream(events, s, l, b, d, h, o),
{
    progress_is_witnessed(start, events);
    let o = latest_milestone(events, 6);
    let h = latest_milestone(events.take(o), 5);
    let d = latest_milestone(events.take(o).take(h), 4);
    let b = latest_milestone(events.take(o).take(h).take(d), 3);
    let l = latest_milestone(events.take(o).take(h).take(d).take(b), 2);
    let s = latest_milestone(events.take(o).take(h).take(d).take(b).take(l), 1);
    assert(is_milestone(events[o], 5));
    assert(is_milestone(events[h], 4)) by {
        assert(events.take(o)[h] == events[h]);
    }
    assert(is_milestone(events[d], 3)) by {
        assert(events.take(o).take(h)[d] == events[d]);
    }
    assert(is_milestone(events[b], 2)) by {
        assert(events.take(o).take(h).take(d)[b] == events[b]);
    }
    assert(is_milestone(events[l], 1)) by {
        assert(events.take(o).take(h).take(d).take(b)[l] == events[l]);
    }
    assert(is_milestone(events[s], 0)) by {
        assert(events.take(o).take(h).take(d).take(b).take(l)[s] == events[s]);
    }
    assert(way_to_stream(events, s, l, b, d, h, o));
}

/// The event that tells of a direction draining after `bytes` bytes.
pub open spec fn drained(direction: Direction, bytes: u64) -> EventView {
    EventView::Relay(RelayEvent::Finished(direction, bytes))
}

proof fn counts_are_witnessed(start: PipelineView, events: Seq<EventView>, direction: Direction)
    requires
        start.stage is Start,
    ensures
        start.after_all(events).stage matches StageView::Relaying(relay) ==> (relay.count(
            direction,
        ) matches Some(bytes) ==> events.contains(drained(direction, bytes))),
        start.after_all(events).stage matches StageView::Done(summary) ==> events.contains(
            drained(
                direction,
                match direction {
                    Direction::Transmit => summary.bytes_transmitted,
                    Direction::Receive => summary.bytes_received,
                },
            ),
        ),
    decreases events.len(),
{
    if events.len() > 0 {
        let earlier = events.drop_last();
        let before = start.after_all(earlier);
        let now = before.after(events.last());
        counts_are_witnessed(start, earlier, direction);
        let counted = match now.stage {
            StageView::Relaying(relay) => relay.count(direction),
            StageView::Done(summary) => Some(
                match direction {
                    Direction::Transmit => summary.bytes_transmitted,
                    Direction::Receive => summary.bytes_received,
                },
            ),
            _ => None,
        };
        if let Some(bytes) = counted {
            let known_before = before.stage == now.stage || (before.stage matches StageView::Relaying(
                relay,
            ) && relay.count(direction) == Some(bytes));
            if known_before {
                earlier_events_remain(events, drained(direction, bytes));
            } else {
                assert(events[events.len() - 1] == drained(direction, bytes));
            }
        }
    }
}

/// A run is done only when both directions have drained, and its summary
/// holds what they counted.
///
/// If the events reported to a run since its start leave it `Done`, then
/// among them are the draining of the sending direction and the draining of
/// the receiving direction, with exactly the counts of the summary.
pub proof fn done_needs_both_directions(
    start: PipelineView,
    events: Seq<EventView>,
    summary: RelaySummary,
)
    requires
        start.stage is Start,
        start.after_all(events).stage == StageView::Done(summary),
    ensures
        events.contains(drained(Direction::Transmit, summary.bytes_transmitted)),
        events.contains(drained(Direction::Receive, summary.bytes_received)),
{
    counts_are_witnessed(start, events, Direction::Transmit);
    counts_are_witnessed(start, events, Direction::Receive);
}

} // verus!
