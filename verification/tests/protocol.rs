use avfallsor::errors::RunError;
use avfallsor::pickup::LocalDateTime;
use avfallsor::pickup::Pickup;
use avfallsor::pickup::PickupType;
use avfallsor::publisher::BrokerEvent;
use avfallsor::publisher::DiscoveryPublisher;
use avfallsor::publisher::Step;

fn record(kind: PickupType, day: u8) -> Pickup {
    let date = LocalDateTime {
        year: 2024,
        month: 3,
        day,
        hour: 6,
        minute: 0,
        second: 0,
        offset_seconds: 3600,
    };
    Pickup::new(date, format!("{:?}", kind), kind)
}

/// A fake broker collaborator: it records every call the machine asks for
/// and answers with synthetic outcomes.
struct FakeBroker {
    publishes: Vec<(String, String)>,
    settles: Vec<u64>,
    waits: Vec<u64>,
    disconnects: usize,
    pending_acks: usize,
}

impl FakeBroker {
    fn new() -> FakeBroker {
        FakeBroker {
            publishes: Vec::new(),
            settles: Vec::new(),
            waits: Vec::new(),
            disconnects: 0,
            pending_acks: 0,
        }
    }

    /// Drives the machine to its end against this broker; every publish is
    /// accepted and acknowledged.
    fn run(&mut self, publisher: &mut DiscoveryPublisher) -> Option<RunError> {
        publisher.start();
        for _ in 0..10_000 {
            match publisher.advance() {
                Step::Publish { topic, payload } => {
                    self.publishes.push((topic, payload));
                    self.pending_acks += 1;
                    publisher.on_publish_result(true);
                }
                Step::AwaitAck { timeout_ms } => {
                    self.waits.push(timeout_ms);
                    if self.pending_acks > 0 {
                        self.pending_acks -= 1;
                        publisher.on_event(BrokerEvent::Ack);
                    } else {
                        publisher.on_event(BrokerEvent::TimedOut);
                    }
                }
                Step::Settle { ms } => {
                    self.settles.push(ms);
                }
                Step::Proceed => {}
                Step::Disconnect => {
                    self.disconnects += 1;
                    publisher.on_disconnect_result(true);
                }
                Step::Finished => return None,
                Step::Aborted { err } => return Some(err),
            }
        }
        panic!("the run did not terminate");
    }
}

#[test]
fn empty_run_completes_without_waiting() {
    let mut publisher = DiscoveryPublisher::new(Vec::new(), 5_000);
    let mut broker = FakeBroker::new();
    let outcome = broker.run(&mut publisher);
    assert_eq!(outcome, None);
    assert_eq!(broker.publishes.len(), 0);
    assert_eq!(broker.waits.len(), 0);
    assert_eq!(broker.disconnects, 1);
}

#[test]
fn three_records_publish_in_two_ordered_phases() {
    let records = vec![
        record(PickupType::Garbage, 15),
        record(PickupType::Paper, 18),
        record(PickupType::FoodWaste, 20),
    ];
    let mut publisher = DiscoveryPublisher::new(records, 5_000);
    let mut broker = FakeBroker::new();
    let outcome = broker.run(&mut publisher);
    assert_eq!(outcome, None);

    assert_eq!(broker.publishes.len(), 6);
    let config_topics: Vec<&str> = broker.publishes[..3]
        .iter()
        .map(|(t, _)| t.as_str())
        .collect();
    assert_eq!(
        config_topics,
        vec![
            "homeassistant/sensor/avfallsor-garbage/config",
            "homeassistant/sensor/avfallsor-paper/config",
            "homeassistant/sensor/avfallsor-foodwaste/config",
        ]
    );
    let state_topics: Vec<&str> = broker.publishes[3..]
        .iter()
        .map(|(t, _)| t.as_str())
        .collect();
    assert_eq!(
        state_topics,
        vec![
            "homeassistant/sensor/avfallsor-garbage/state",
            "homeassistant/sensor/avfallsor-paper/state",
            "homeassistant/sensor/avfallsor-foodwaste/state",
        ]
    );
    assert!(broker.publishes[0].1.contains("\"device_class\":\"timestamp\""));
    assert_eq!(broker.publishes[3].1, "2024-03-15T06:00:00+01:00");

    // The settle pause falls between the two publish phases, after the
    // announce acknowledgments.
    assert_eq!(broker.settles, vec![2_000]);
    assert_eq!(broker.waits.len(), 6);
    assert_eq!(broker.disconnects, 1);
}

#[test]
fn waits_carry_the_configured_timeout() {
    let records = vec![record(PickupType::Garbage, 15)];
    let mut publisher = DiscoveryPublisher::new(records, 1_234);
    let mut broker = FakeBroker::new();
    assert_eq!(broker.run(&mut publisher), None);
    assert_eq!(broker.waits, vec![1_234, 1_234]);
}

#[test]
fn silent_broker_aborts_with_ack_timeout() {
    let records = vec![record(PickupType::Garbage, 15)];
    let mut publisher = DiscoveryPublisher::new(records, 1_000);
    publisher.start();
    let mut publishes = 0;
    let outcome = loop {
        match publisher.advance() {
            Step::Publish { .. } => {
                publishes += 1;
                publisher.on_publish_result(true);
            }
            Step::AwaitAck { .. } => {
                // The broker never surfaces an acknowledgment: the bounded
                // wait expires.
                publisher.on_event(BrokerEvent::TimedOut);
            }
            Step::Proceed => {}
            Step::Aborted { err } => break Some(err),
            Step::Finished => break None,
            Step::Settle { .. } => {}
            Step::Disconnect => {
                publisher.on_disconnect_result(true);
            }
        }
    };
    assert_eq!(publishes, 1);
    assert_eq!(outcome, Some(RunError::AckTimeout));
    assert_eq!(publisher.error(), Some(RunError::AckTimeout));
}

#[test]
fn failed_send_aborts_the_run() {
    let records = vec![record(PickupType::Garbage, 15), record(PickupType::Paper, 18)];
    let mut publisher = DiscoveryPublisher::new(records, 1_000);
    publisher.start();
    let outcome = loop {
        match publisher.advance() {
            Step::Publish { .. } => {
                publisher.on_publish_result(false);
            }
            Step::Aborted { err } => break Some(err),
            Step::Finished => break None,
            Step::Proceed => {}
            Step::AwaitAck { .. } => {
                publisher.on_event(BrokerEvent::TimedOut);
            }
            Step::Settle { .. } => {}
            Step::Disconnect => {
                publisher.on_disconnect_result(true);
            }
        }
    };
    assert_eq!(outcome, Some(RunError::PublishError));
}

#[test]
fn stray_events_do_not_count_as_acknowledgments() {
    let records = vec![record(PickupType::Garbage, 15)];
    let mut publisher = DiscoveryPublisher::new(records, 1_000);
    publisher.start();
    // Publish the one config message.
    match publisher.advance() {
        Step::Publish { .. } => publisher.on_publish_result(true),
        _ => panic!("expected a publish step"),
    }
    match publisher.advance() {
        Step::Proceed => {}
        _ => panic!("expected the phase change"),
    }
    // A non-acknowledgment event leaves the machine waiting.
    match publisher.advance() {
        Step::AwaitAck { .. } => publisher.on_event(BrokerEvent::Other),
        _ => panic!("expected a wait"),
    }
    match publisher.advance() {
        Step::AwaitAck { .. } => publisher.on_event(BrokerEvent::Ack),
        _ => panic!("expected a second wait"),
    }
    // The acknowledgment released the announce wait.
    match publisher.advance() {
        Step::Proceed => {}
        _ => panic!("expected the phase change after the acknowledgment"),
    }
}
