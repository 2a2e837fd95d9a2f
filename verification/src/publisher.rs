//! The discovery-and-publish protocol, as a state machine.
//!
//! A run announces every record's sensor, waits for as many broker
//! acknowledgments as it published, pauses so the hub can persist the new
//! sensors, publishes every sensor's value, waits for acknowledgments
//! again, and disconnects. Acknowledgments are counted, not correlated to
//! the publish they confirm; the wait is bounded, and its expiry is fatal.
//! The machine decides; a driver performs each step against the broker and
//! reports what happened.

use vstd::prelude::*;
use crate::errors::RunError;
use crate::pickup::Pickup;
use crate::pickup::spec_config_topic;
use crate::pickup::spec_state_topic;
use crate::pickup::spec_config_json;
use crate::pickup::spec_iso_text;

verus! {

/// The grace interval after the announce phase, in milliseconds.
pub const SETTLE_MS: u64 = 2000;

/// Where a run stands.
#[derive(Clone, Copy, Debug, PartialEq, Eq, Structural)]
pub enum Phase {
    Idle,
    Announcing,
    AwaitingAnnounceAcks,
    Settling,
    Publishing,
    AwaitingPublishAcks,
    Done,
    Failed,
}

/// What the driver must do next.
pub enum Step {
    /// Send the payload to the topic with at-least-once delivery, then
    /// report whether the send was accepted.
    Publish { topic: String, payload: String },
    /// Wait for the next broker event, at most `timeout_ms` milliseconds,
    /// then report it.
    AwaitAck { timeout_ms: u64 },
    /// Pause for the settle interval.
    Settle { ms: u64 },
    /// Nothing outward; ask for the next step again.
    Proceed,
    /// Close the broker connection, then report whether that succeeded.
    Disconnect,
    /// The run is complete.
    Finished,
    /// The run failed; `err` is the first fatal cause.
    Aborted { err: RunError },
}

/// The shape of a step, without its payload.
#[derive(Clone, Copy, Debug, PartialEq, Eq, Structural)]
pub enum StepKind {
    Publish,
    AwaitAck,
    Settle,
    Proceed,
    Disconnect,
    Finished,
    Aborted,
}

pub open spec fn spec_step_kind(s: Step) -> StepKind {
    match s {
        Step::Publish { .. } => StepKind::Publish,
        Step::AwaitAck { .. } => StepKind::AwaitAck,
        Step::Settle { .. } => StepKind::Settle,
        Step::Proceed => StepKind::Proceed,
        Step::Disconnect => StepKind::Disconnect,
        Step::Finished => StepKind::Finished,
        Step::Aborted { .. } => StepKind::Aborted,
    }
}

/// What the driver saw while waiting on the broker's event stream.
#[derive(Clone, Copy, Debug, PartialEq, Eq, Structural)]
pub enum BrokerEvent {
    /// An acknowledgment of some publish arrived.
    Ack,
    /// Some other event arrived; it does not count.
    Other,
    /// The bounded wait expired without an event.
    TimedOut,
}

/// Drives one two-phase announce/publish run over an ordered record list.
pub struct DiscoveryPublisher {
    pub records: Vec<Pickup>,
    pub phase: Phase,
    pub sent: usize,
    pub acks: usize,
    pub ack_timeout_ms: u64,
    pub err: Option<RunError>,
    pub disconnect_failed: bool,
}

impl DiscoveryPublisher {
    pub open spec fn wf(self) -> bool {
        &&& self.sent <= self.records@.len()
        &&& self.acks <= self.records@.len()
        &&& (forall|i: int|
            #![trigger self.records@[i]]
            0 <= i < self.records@.len() ==> self.records@[i].wf())
        &&& (self.phase == Phase::Failed <==> self.err is Some)
    }

    pub fn new(records: Vec<Pickup>, ack_timeout_ms: u64) -> (p: DiscoveryPublisher)
        requires
            forall|i: int|
                #![trigger records@[i]]
                0 <= i < records@.len() ==> records@[i].wf(),
        ensures
            p.wf(),
            p.records == records,
            p.phase == Phase::Idle,
            p.sent == 0,
            p.acks == 0,
            p.ack_timeout_ms == ack_timeout_ms,
            p.err is None,
            !p.disconnect_failed,
    {
        DiscoveryPublisher {
            records,
            phase: Phase::Idle,
            sent: 0,
            acks: 0,
            ack_timeout_ms,
            err: None,
            disconnect_failed: false,
        }
    }

    /// Opens the run: announcing starts with the first record.
    pub fn start(&mut self)
        requires
            old(self).wf(),
            old(self).phase == Phase::Idle,
        ensures
            final(self).wf(),
            *final(self) == (DiscoveryPublisher { phase: Phase::Announcing, sent: 0, ..*old(self) }),
    {
        self.phase = Phase::Announcing;
        self.sent = 0;
    }
}

/// The machine after one step is handed out.
pub open spec fn spec_advance(m: DiscoveryPublisher) -> DiscoveryPublisher {
    match m.phase {
        Phase::Idle => m,
        Phase::Announcing => {
            if m.sent < m.records@.len() {
                DiscoveryPublisher { sent: (m.sent + 1) as usize, ..m }
            } else {
                DiscoveryPublisher { phase: Phase::AwaitingAnnounceAcks, acks: 0, ..m }
            }
        },
        Phase::AwaitingAnnounceAcks => {
            if m.acks >= m.records@.len() {
                DiscoveryPublisher { phase: Phase::Settling, ..m }
            } else {
                m
            }
        },
        Phase::Settling => DiscoveryPublisher { phase: Phase::Publishing, sent: 0, ..m },
        Phase::Publishing => {
            if m.sent < m.records@.len() {
                DiscoveryPublisher { sent: (m.sent + 1) as usize, ..m }
            } else {
                DiscoveryPublisher { phase: Phase::AwaitingPublishAcks, acks: 0, ..m }
            }
        },
        Phase::AwaitingPublishAcks => {
            if m.acks >= m.records@.len() {
                DiscoveryPublisher { phase: Phase::Done, ..m }
            } else {
                m
            }
        },
        Phase::Done => m,
        Phase::Failed => m,
    }
}

/// The shape of the step handed out.
pub open spec fn spec_advance_kind(m: DiscoveryPublisher) -> StepKind {
    match m.phase {
        Phase::Idle => StepKind::Proceed,
        Phase::Announcing => {
            if m.sent < m.records@.len() {
                StepKind::Publish
            } else {
                StepKind::Proceed
            }
        },
        Phase::AwaitingAnnounceAcks => {
            if m.acks >= m.records@.len() {
                StepKind::Proceed
            } else {
                StepKind::AwaitAck
            }
        },
        Phase::Settling => StepKind::Settle,
        Phase::Publishing => {
            if m.sent < m.records@.len() {
                StepKind::Publish
            } else {
                StepKind::Proceed
            }
        },
        Phase::AwaitingPublishAcks => {
            if m.acks >= m.records@.len() {
                StepKind::Disconnect
            } else {
                StepKind::AwaitAck
            }
        },
        Phase::Done => StepKind::Finished,
        Phase::Failed => StepKind::Aborted,
    }
}

impl DiscoveryPublisher {
    /// Hands out the next step and moves the machine past it. In the
    /// announce phase each step publishes one record's discovery payload to
    /// its config topic; in the publish phase, its state payload to its
    /// state topic; each await phase waits only while acknowledgments are
    /// owed, with the configured bound.
    pub fn advance(&mut self) -> (s: Step)
        requires
            old(self).wf(),
            old(self).phase != Phase::Idle,
        ensures
            final(self).wf(),
            *final(self) == spec_advance(*old(self)),
            spec_step_kind(s) == spec_advance_kind(*old(self)),
            (old(self).phase == Phase::Announcing && old(self).sent < old(self).records@.len())
                ==> (s matches Step::Publish { topic, payload } && topic@ == spec_config_topic(
                old(self).records@[old(self).sent as int].kind,
            ) && payload@ == spec_config_json(
                old(self).records@[old(self).sent as int].label@,
                old(self).records@[old(self).sent as int].kind,
            )),
            (old(self).phase == Phase::Publishing && old(self).sent < old(self).records@.len())
                ==> (s matches Step::Publish { topic, payload } && topic@ == spec_state_topic(
                old(self).records@[old(self).sent as int].kind,
            ) && payload@ == spec_iso_text(old(self).records@[old(self).sent as int].date)),
            (s matches Step::AwaitAck { timeout_ms } ==> timeout_ms == old(self).ack_timeout_ms),
            (s matches Step::Settle { ms } ==> ms == SETTLE_MS),
            (s matches Step::Aborted { err } ==> Some(err) == old(self).err),
    {
        match self.phase {
            Phase::Idle => Step::Proceed,
            Phase::Announcing => {
                if self.sent < self.records.len() {
                    let rec = &self.records[self.sent];
                    let topic = rec.config_topic();
                    let payload = rec.homeassistant_config_json();
                    self.sent = self.sent + 1;
                    Step::Publish { topic, payload }
                } else {
                    self.phase = Phase::AwaitingAnnounceAcks;
                    self.acks = 0;
                    Step::Proceed
                }
            },
            Phase::AwaitingAnnounceAcks => {
                if self.acks >= self.records.len() {
                    self.phase = Phase::Settling;
                    Step::Proceed
                } else {
                    Step::AwaitAck { timeout_ms: self.ack_timeout_ms }
                }
            },
            Phase::Settling => {
                self.phase = Phase::Publishing;
                self.sent = 0;
                Step::Settle { ms: SETTLE_MS }
            },
            Phase::Publishing => {
                if self.sent < self.records.len() {
                    let rec = &self.records[self.sent];
                    let topic = rec.state_topic();
                    let payload = rec.homeassistant_state_message();
                    self.sent = self.sent + 1;
                    Step::Publish { topic, payload }
                } else {
                    self.phase = Phase::AwaitingPublishAcks;
                    self.acks = 0;
                    Step::Proceed
                }
            },
            Phase::AwaitingPublishAcks => {
                if self.acks >= self.records.len() {
                    self.phase = Phase::Done;
                    Step::Disconnect
                } else {
                    Step::AwaitAck { timeout_ms: self.ack_timeout_ms }
                }
            },
            Phase::Done => Step::Finished,
            Phase::Failed => {
                match self.err {
                    Some(e) => Step::Aborted { err: e },
                    None => {
                        proof {
                            assert(false);
                        }
                        Step::Proceed
                    },
                }
            },
        }
    }

    /// Takes the event the driver saw while waiting: an acknowledgment
    /// counts, whichever publish it confirms; any other event does not; an
    /// expired wait fails the run with the timeout error.
    pub fn on_event(&mut self, e: BrokerEvent)
        requires
            old(self).wf(),
            old(self).phase == Phase::AwaitingAnnounceAcks || old(self).phase
                == Phase::AwaitingPublishAcks,
            old(self).acks < old(self).records@.len(),
        ensures
            final(self).wf(),
            e == BrokerEvent::Ack ==> *final(self) == (DiscoveryPublisher {
                acks: (old(self).acks + 1) as usize,
                ..*old(self)
            }),
            e == BrokerEvent::Other ==> *final(self) == *old(self),
            e == BrokerEvent::TimedOut ==> *final(self) == (DiscoveryPublisher {
                phase: Phase::Failed,
                err: Some(RunError::AckTimeout),
                ..*old(self)
            }),
    {
        match e {
            BrokerEvent::Ack => {
                let n: usize = self.records.len();
                proof {
                    assert(self.acks < n);
                }
                self.acks = self.acks + 1;
            },
            BrokerEvent::Other => {},
            BrokerEvent::TimedOut => {
                self.phase = Phase::Failed;
                self.err = Some(RunError::AckTimeout);
            },
        }
    }

    /// Takes the outcome of a publish step: a send-level failure is fatal
    /// to the whole run.
    pub fn on_publish_result(&mut self, ok: bool)
        requires
            old(self).wf(),
            old(self).phase == Phase::Announcing || old(self).phase == Phase::Publishing,
        ensures
            final(self).wf(),
            ok ==> *final(self) == *old(self),
            !ok ==> *final(self) == (DiscoveryPublisher {
                phase: Phase::Failed,
                err: Some(RunError::PublishError),
                ..*old(self)
            }),
    {
        if !ok {
            self.phase = Phase::Failed;
            self.err = Some(RunError::PublishError);
        }
    }

    /// Takes the outcome of the disconnect step: a failure is recorded but
    /// does not invalidate the completed run.
    pub fn on_disconnect_result(&mut self, ok: bool)
        requires
            old(self).wf(),
            old(self).phase == Phase::Done,
        ensures
            final(self).wf(),
            *final(self) == (DiscoveryPublisher { disconnect_failed: !ok, ..*old(self) }),
    {
        self.disconnect_failed = !ok;
    }

    /// The first fatal cause, if the run failed.
    pub fn error(&self) -> (r: Option<RunError>)
        ensures
            r == self.err,
    {
        self.err
    }
}

/// How far a run still has to go, by phase alone.
pub open spec fn spec_phase_rank(p: Phase) -> int {
    match p {
        Phase::Idle => 6,
        Phase::Announcing => 5,
        Phase::AwaitingAnnounceAcks => 4,
        Phase::Settling => 3,
        Phase::Publishing => 2,
        Phase::AwaitingPublishAcks => 1,
        Phase::Done => 0,
        Phase::Failed => 0,
    }
}

/// A run over no records never waits: no step it hands out is an
/// acknowledgment wait, and every step taken in a non-terminal phase moves
/// the run strictly closer to completion, so both await phases complete
/// without blocking.
pub proof fn lemma_empty_run_never_waits(m: DiscoveryPublisher)
    requires
        m.wf(),
        m.records@.len() == 0,
        m.phase != Phase::Idle,
    ensures
        spec_advance_kind(m) != StepKind::AwaitAck,
        m.phase != Phase::Done && m.phase != Phase::Failed ==> spec_phase_rank(
            spec_advance(m).phase,
        ) < spec_phase_rank(m.phase),
{
}

} // verus!
