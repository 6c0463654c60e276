use netcat::address::{IpAddress, ResolvedAddress};
use netcat::connector::{ConnectorEvent, Driver, Phase, Step};
use netcat::error::Failure;
use netcat::options::{Options, Protocol, QuicOptions};
use netcat::pipeline::{Action, Event, Pipeline, Stage};
use netcat::relay::{Direction, Relay, RelayEvent, RelaySummary};

fn options(dns_name: Option<&str>) -> Options {
    Options {
        hostname: "example.com".to_string(),
        port: 4433,
        protocol: Protocol::Quic(QuicOptions { dns_name: dns_name.map(|name| name.to_string()) }),
    }
}

fn remote() -> ResolvedAddress {
    ResolvedAddress { ip: IpAddress::V4([192, 0, 2, 1]), port: 4433 }
}

fn feed(mut pipeline: Pipeline, events: Vec<Event>) -> (Pipeline, Vec<Action>) {
    let mut actions = Vec::new();
    for event in events {
        let (next, action) = pipeline.step(event);
        pipeline = next;
        actions.push(action);
    }
    (pipeline, actions)
}

fn up_to_handshake() -> Vec<Event> {
    vec![
        Event::Begin,
        Event::LookupFinished(vec![IpAddress::V4([192, 0, 2, 1])]),
        Event::Connector(ConnectorEvent::Succeeded(Step::Bind)),
        Event::Connector(ConnectorEvent::Succeeded(Step::Dial)),
    ]
}

fn up_to_relay() -> Vec<Event> {
    let mut events = up_to_handshake();
    events.push(Event::Connector(ConnectorEvent::Succeeded(Step::Handshake)));
    events.push(Event::Connector(ConnectorEvent::Succeeded(Step::OpenStream)));
    events
}

#[test]
fn new_pipeline_stands_at_start() {
    let pipeline = Pipeline::new(options(None));
    assert_eq!(pipeline.stage(), &Stage::Start);
    assert_eq!(pipeline.hostname(), "example.com");
    assert_eq!(pipeline.port(), 4433);
    assert_eq!(pipeline.server_name(), "example.com");
    assert_eq!(pipeline.outcome(), None);
    assert_eq!(pipeline.exit_code(), None);
}

#[test]
fn begin_asks_for_the_lookup_of_the_hostname() {
    let (pipeline, action) = Pipeline::new(options(None)).step(Event::Begin);
    assert_eq!(action, Action::Resolve { hostname: "example.com".to_string() });
    assert_eq!(pipeline.stage(), &Stage::Resolving);
}

#[test]
fn resolved_address_is_first_candidate_with_target_port() {
    let (pipeline, actions) = feed(
        Pipeline::new(options(None)),
        vec![Event::Begin, Event::LookupFinished(vec![IpAddress::V4([192, 0, 2, 1])])],
    );
    assert_eq!(actions[1], Action::BindEndpoint);
    match pipeline.stage() {
        Stage::Connecting(connector) => {
            assert_eq!(
                connector.remote,
                ResolvedAddress { ip: IpAddress::V4([192, 0, 2, 1]), port: 4433 }
            );
            assert_eq!(connector.server_name, "example.com");
            assert_eq!(connector.phase, Phase::Awaiting(Step::Bind));
        }
        other => panic!("not connecting: {:?}", other),
    }
}

#[test]
fn empty_lookup_fails_the_run_before_any_connection() {
    let (pipeline, actions) =
        feed(Pipeline::new(options(None)), vec![Event::Begin, Event::LookupFinished(vec![])]);
    assert_eq!(actions[1], Action::Abort(Failure::NoDnsRecord));
    assert_eq!(pipeline.stage(), &Stage::Failed(Failure::NoDnsRecord));
    assert_eq!(pipeline.outcome(), Some(Err(Failure::NoDnsRecord)));
    assert_eq!(pipeline.exit_code(), Some(1));
    assert_ne!(pipeline.exit_code(), Some(0));

    let (pipeline, actions) = feed(
        pipeline,
        vec![
            Event::Connector(ConnectorEvent::Succeeded(Step::Bind)),
            Event::Connector(ConnectorEvent::Succeeded(Step::Dial)),
            Event::LookupFinished(vec![IpAddress::V4([192, 0, 2, 1])]),
            Event::Begin,
        ],
    );
    assert_eq!(actions, vec![Action::Ignore, Action::Ignore, Action::Ignore, Action::Ignore]);
    assert_eq!(pipeline.stage(), &Stage::Failed(Failure::NoDnsRecord));
}

#[test]
fn failed_lookup_fails_the_run() {
    let (pipeline, actions) =
        feed(Pipeline::new(options(None)), vec![Event::Begin, Event::LookupFailed]);
    assert_eq!(actions[1], Action::Abort(Failure::LookupFailed));
    assert_eq!(pipeline.outcome(), Some(Err(Failure::LookupFailed)));
    assert_eq!(pipeline.exit_code(), Some(1));
}

#[test]
fn dial_is_asked_with_address_and_hostname() {
    let (_, actions) = feed(
        Pipeline::new(options(None)),
        vec![
            Event::Begin,
            Event::LookupFinished(vec![
                IpAddress::V4([192, 0, 2, 1]),
                IpAddress::V4([198, 51, 100, 9]),
            ]),
            Event::Connector(ConnectorEvent::Succeeded(Step::Bind)),
        ],
    );
    assert_eq!(
        actions[2],
        Action::Dial { remote: remote(), server_name: "example.com".to_string() }
    );
}

#[test]
fn dial_is_asked_with_the_explicit_name() {
    let pipeline = Pipeline::new(options(Some("example.org")));
    assert_eq!(pipeline.server_name(), "example.org");
    let (_, actions) = feed(
        pipeline,
        vec![
            Event::Begin,
            Event::LookupFinished(vec![IpAddress::V4([192, 0, 2, 1])]),
            Event::Connector(ConnectorEvent::Succeeded(Step::Bind)),
        ],
    );
    assert_eq!(
        actions[0],
        Action::Resolve { hostname: "example.com".to_string() }
    );
    assert_eq!(
        actions[2],
        Action::Dial { remote: remote(), server_name: "example.org".to_string() }
    );
}

#[test]
fn connection_steps_are_asked_in_order() {
    let (pipeline, actions) = feed(Pipeline::new(options(None)), up_to_relay());
    assert_eq!(
        actions,
        vec![
            Action::Resolve { hostname: "example.com".to_string() },
            Action::BindEndpoint,
            Action::Dial { remote: remote(), server_name: "example.com".to_string() },
            Action::AwaitHandshake,
            Action::OpenStream,
            Action::StartRelay,
        ]
    );
    assert_eq!(pipeline.stage(), &Stage::Relaying(Relay::new()));
    assert_eq!(pipeline.outcome(), None);
    assert_eq!(pipeline.exit_code(), None);
}

#[test]
fn bind_failure_fails_the_run() {
    let (pipeline, actions) = feed(
        Pipeline::new(options(None)),
        vec![
            Event::Begin,
            Event::LookupFinished(vec![IpAddress::V4([192, 0, 2, 1])]),
            Event::Connector(ConnectorEvent::Failed(Step::Bind)),
        ],
    );
    assert_eq!(actions[2], Action::Abort(Failure::EndpointBindFailed));
    assert_eq!(pipeline.outcome(), Some(Err(Failure::EndpointBindFailed)));
}

#[test]
fn connect_failure_fails_the_run() {
    let (pipeline, actions) = feed(
        Pipeline::new(options(None)),
        vec![
            Event::Begin,
            Event::LookupFinished(vec![IpAddress::V4([192, 0, 2, 1])]),
            Event::Connector(ConnectorEvent::Succeeded(Step::Bind)),
            Event::Connector(ConnectorEvent::Failed(Step::Dial)),
        ],
    );
    assert_eq!(actions[3], Action::Abort(Failure::ConnectFailed));
    assert_eq!(pipeline.outcome(), Some(Err(Failure::ConnectFailed)));
}

#[test]
fn handshake_failure_fails_the_run_without_stream_or_relay() {
    let mut events = up_to_handshake();
    events.push(Event::Connector(ConnectorEvent::Failed(Step::Handshake)));
    let (pipeline, actions) = feed(Pipeline::new(options(None)), events);
    assert_eq!(actions[4], Action::Abort(Failure::HandshakeFailed));
    assert!(!actions.contains(&Action::OpenStream));
    assert!(!actions.contains(&Action::StartRelay));
    assert_eq!(pipeline.stage(), &Stage::Failed(Failure::HandshakeFailed));
    assert_eq!(pipeline.exit_code(), Some(1));

    let (pipeline, actions) = feed(
        pipeline,
        vec![
            Event::Connector(ConnectorEvent::Succeeded(Step::Handshake)),
            Event::Connector(ConnectorEvent::Succeeded(Step::OpenStream)),
            Event::Relay(RelayEvent::Finished(Direction::Transmit, 100)),
            Event::Relay(RelayEvent::Finished(Direction::Receive, 250)),
        ],
    );
    assert_eq!(actions, vec![Action::Ignore, Action::Ignore, Action::Ignore, Action::Ignore]);
    assert_eq!(pipeline.outcome(), Some(Err(Failure::HandshakeFailed)));
}

#[test]
fn stream_failure_fails_the_run() {
    let mut events = up_to_handshake();
    events.push(Event::Connector(ConnectorEvent::Succeeded(Step::Handshake)));
    events.push(Event::Connector(ConnectorEvent::Failed(Step::OpenStream)));
    let (pipeline, actions) = feed(Pipeline::new(options(None)), events);
    assert_eq!(actions[5], Action::Abort(Failure::StreamOpenFailed));
    assert_eq!(pipeline.outcome(), Some(Err(Failure::StreamOpenFailed)));
}

#[test]
fn full_run_reports_both_counts() {
    let mut events = up_to_relay();
    events.push(Event::Relay(RelayEvent::Finished(Direction::Transmit, 100)));
    events.push(Event::Relay(RelayEvent::Finished(Direction::Receive, 250)));
    let (pipeline, actions) = feed(Pipeline::new(options(None)), events);
    let summary = RelaySummary { bytes_transmitted: 100, bytes_received: 250 };
    assert_eq!(actions[6], Action::Wait);
    assert_eq!(actions[7], Action::Finish(summary));
    assert_eq!(pipeline.stage(), &Stage::Done(summary));
    assert_eq!(pipeline.outcome(), Some(Ok(summary)));
    assert_eq!(pipeline.exit_code(), Some(0));
}

#[test]
fn run_is_not_done_while_the_remote_still_sends() {
    let mut events = up_to_relay();
    events.push(Event::Relay(RelayEvent::Finished(Direction::Transmit, 0)));
    let (pipeline, actions) = feed(Pipeline::new(options(None)), events);
    assert_eq!(actions[6], Action::Wait);
    assert_eq!(pipeline.outcome(), None);
    assert_eq!(
        pipeline.stage(),
        &Stage::Relaying(Relay { transmitted: Some(0), received: None, failed: false })
    );
    let (pipeline, action) = pipeline.step(Event::Relay(RelayEvent::Finished(Direction::Receive, 12345)));
    assert_eq!(
        action,
        Action::Finish(RelaySummary { bytes_transmitted: 0, bytes_received: 12345 })
    );
    assert_eq!(
        pipeline.outcome(),
        Some(Ok(RelaySummary { bytes_transmitted: 0, bytes_received: 12345 }))
    );
}

#[test]
fn relay_failure_fails_the_run_with_the_counts_reached() {
    let mut events = up_to_relay();
    events.push(Event::Relay(RelayEvent::Finished(Direction::Transmit, 100)));
    events.push(Event::Relay(RelayEvent::Failed {
        direction: Direction::Receive,
        bytes_transmitted: None,
        bytes_received: Some(250),
    }));
    let (pipeline, actions) = feed(Pipeline::new(options(None)), events);
    let failure = Failure::RelayIOFailed { bytes_transmitted: Some(100), bytes_received: Some(250) };
    assert_eq!(actions[7], Action::Abort(failure));
    assert_eq!(pipeline.stage(), &Stage::Failed(failure));
    assert_eq!(pipeline.outcome(), Some(Err(failure)));
    assert_eq!(pipeline.exit_code(), Some(1));
}

#[test]
fn relay_failure_while_both_directions_copy_carries_both_counts() {
    let mut events = up_to_relay();
    events.push(Event::Relay(RelayEvent::Failed {
        direction: Direction::Receive,
        bytes_transmitted: Some(64),
        bytes_received: Some(2048),
    }));
    let (pipeline, actions) = feed(Pipeline::new(options(None)), events);
    let failure = Failure::RelayIOFailed { bytes_transmitted: Some(64), bytes_received: Some(2048) };
    assert_eq!(actions[6], Action::Abort(failure));
    assert_eq!(pipeline.outcome(), Some(Err(failure)));
}

#[test]
fn relay_failure_without_counts_fails_the_run_all_the_same() {
    let mut events = up_to_relay();
    events.push(Event::Relay(RelayEvent::Failed {
        direction: Direction::Transmit,
        bytes_transmitted: None,
        bytes_received: None,
    }));
    let (pipeline, actions) = feed(Pipeline::new(options(None)), events);
    let failure = Failure::RelayIOFailed { bytes_transmitted: None, bytes_received: None };
    assert_eq!(actions[6], Action::Abort(failure));
    assert_eq!(pipeline.outcome(), Some(Err(failure)));
    assert_eq!(pipeline.exit_code(), Some(1));
}

#[test]
fn done_run_ignores_everything() {
    let mut events = up_to_relay();
    events.push(Event::Relay(RelayEvent::Finished(Direction::Receive, 250)));
    events.push(Event::Relay(RelayEvent::Finished(Direction::Transmit, 100)));
    let (pipeline, _) = feed(Pipeline::new(options(None)), events);
    let summary = RelaySummary { bytes_transmitted: 100, bytes_received: 250 };
    let (pipeline, actions) = feed(
        pipeline,
        vec![
            Event::Relay(RelayEvent::Failed { direction: Direction::Receive, bytes_transmitted: None, bytes_received: None }),
            Event::LookupFailed,
            Event::Begin,
            Event::Connector(ConnectorEvent::Failed(Step::Bind)),
        ],
    );
    assert_eq!(actions, vec![Action::Ignore, Action::Ignore, Action::Ignore, Action::Ignore]);
    assert_eq!(pipeline.outcome(), Some(Ok(summary)));
    assert_eq!(pipeline.exit_code(), Some(0));
}

#[test]
fn events_out_of_place_change_nothing() {
    let (pipeline, action) =
        Pipeline::new(options(None)).step(Event::LookupFinished(vec![IpAddress::V4([192, 0, 2, 1])]));
    assert_eq!(action, Action::Ignore);
    assert_eq!(pipeline.stage(), &Stage::Start);

    let (pipeline, _) = pipeline.step(Event::Begin);
    let (pipeline, action) = pipeline.step(Event::Begin);
    assert_eq!(action, Action::Ignore);
    assert_eq!(pipeline.stage(), &Stage::Resolving);
    let (pipeline, action) = pipeline.step(Event::Connector(ConnectorEvent::Succeeded(Step::Bind)));
    assert_eq!(action, Action::Ignore);
    assert_eq!(pipeline.stage(), &Stage::Resolving);
    let (pipeline, action) = pipeline.step(Event::Relay(RelayEvent::Failed { direction: Direction::Receive, bytes_transmitted: None, bytes_received: None }));
    assert_eq!(action, Action::Ignore);
    assert_eq!(pipeline.stage(), &Stage::Resolving);

    let (pipeline, _) = pipeline.step(Event::LookupFinished(vec![IpAddress::V4([192, 0, 2, 1])]));
    let (pipeline, action) = pipeline.step(Event::Connector(ConnectorEvent::Succeeded(Step::OpenStream)));
    assert_eq!(action, Action::Ignore);
    let (pipeline, action) = pipeline.step(Event::LookupFailed);
    assert_eq!(action, Action::Ignore);
    match pipeline.stage() {
        Stage::Connecting(connector) => assert_eq!(connector.phase, Phase::Awaiting(Step::Bind)),
        other => panic!("not connecting: {:?}", other),
    }
}

#[test]
fn relay_ignores_a_second_report_of_one_direction() {
    let mut events = up_to_relay();
    events.push(Event::Relay(RelayEvent::Finished(Direction::Transmit, 100)));
    events.push(Event::Relay(RelayEvent::Finished(Direction::Transmit, 7)));
    events.push(Event::Connector(ConnectorEvent::Failed(Step::OpenStream)));
    let (pipeline, actions) = feed(Pipeline::new(options(None)), events);
    assert_eq!(actions[7], Action::Ignore);
    assert_eq!(actions[8], Action::Ignore);
    assert_eq!(
        pipeline.stage(),
        &Stage::Relaying(Relay { transmitted: Some(100), received: None, failed: false })
    );
}

#[test]
fn ipv6_candidate_is_dialled_as_given() {
    let ip = IpAddress::V6([0x2001, 0xdb8, 0, 0, 0, 0, 0, 0x10]);
    let (_, actions) = feed(
        Pipeline::new(options(None)),
        vec![
            Event::Begin,
            Event::LookupFinished(vec![ip, IpAddress::V4([192, 0, 2, 1])]),
            Event::Connector(ConnectorEvent::Succeeded(Step::Bind)),
        ],
    );
    assert_eq!(
        actions[2],
        Action::Dial {
            remote: ResolvedAddress { ip, port: 4433 },
            server_name: "example.com".to_string()
        }
    );
}

#[test]
fn driver_failure_is_ignored_at_every_stage() {
    let (pipeline, action) = Pipeline::new(options(None)).step(Event::DriverFailed(Driver::Endpoint));
    assert_eq!(action, Action::Ignore);
    assert_eq!(pipeline.stage(), &Stage::Start);

    let (pipeline, _) = pipeline.step(Event::Begin);
    let (pipeline, action) = pipeline.step(Event::DriverFailed(Driver::Session));
    assert_eq!(action, Action::Ignore);
    assert_eq!(pipeline.stage(), &Stage::Resolving);

    let (pipeline, _) = feed(Pipeline::new(options(None)), up_to_handshake());
    let before = pipeline.stage().clone();
    let (pipeline, action) = pipeline.step(Event::DriverFailed(Driver::Endpoint));
    assert_eq!(action, Action::Ignore);
    assert_eq!(pipeline.stage(), &before);

    let (pipeline, _) = feed(Pipeline::new(options(None)), up_to_relay());
    let (pipeline, action) = pipeline.step(Event::DriverFailed(Driver::Session));
    assert_eq!(action, Action::Ignore);
    assert_eq!(pipeline.stage(), &Stage::Relaying(Relay::new()));
    assert_eq!(pipeline.outcome(), None);
}

#[test]
fn driver_failures_do_not_change_the_outcome() {
    let mut events = up_to_relay();
    events.insert(3, Event::DriverFailed(Driver::Endpoint));
    events.push(Event::DriverFailed(Driver::Session));
    events.push(Event::Relay(RelayEvent::Finished(Direction::Transmit, 100)));
    events.push(Event::DriverFailed(Driver::Endpoint));
    events.push(Event::Relay(RelayEvent::Finished(Direction::Receive, 250)));
    events.push(Event::DriverFailed(Driver::Session));
    let (pipeline, actions) = feed(Pipeline::new(options(None)), events);
    let summary = RelaySummary { bytes_transmitted: 100, bytes_received: 250 };
    assert_eq!(actions[3], Action::Ignore);
    assert_eq!(actions[7], Action::Ignore);
    assert_eq!(actions[9], Action::Ignore);
    assert_eq!(actions[10], Action::Finish(summary));
    assert_eq!(actions[11], Action::Ignore);
    assert_eq!(pipeline.outcome(), Some(Ok(summary)));
    assert_eq!(pipeline.exit_code(), Some(0));
}

#[test]
fn empty_explicit_name_leaves_the_hostname_as_identity() {
    let pipeline = Pipeline::new(options(Some("")));
    assert_eq!(pipeline.server_name(), "example.com");
    let (_, actions) = feed(
        pipeline,
        vec![
            Event::Begin,
            Event::LookupFinished(vec![IpAddress::V4([192, 0, 2, 1])]),
            Event::Connector(ConnectorEvent::Succeeded(Step::Bind)),
        ],
    );
    assert_eq!(
        actions[2],
        Action::Dial { remote: remote(), server_name: "example.com".to_string() }
    );
}
