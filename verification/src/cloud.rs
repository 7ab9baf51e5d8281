//! The cloud thread's loop as a state machine. One iteration polls for an
//! inbound message and deposits what it holds, then publishes the snapshot
//! that waits, if one does, and pauses. The machine decides; its driver
//! performs each action and hands back what came of it.

use crate::bus::BusEvent;
use crate::command::{DeviceCommand, GatewayCommand};
use crate::engine::telemetry_state_spec;
use crate::mailbox::{lemma_latest_state_wins, observed_all};
use crate::mqtt::{state_topic, state_topic_spec, PUBLISH_PAUSE_S, STATE_QOS};
use crate::state::{DeviceState, GatewayState};
use vstd::prelude::*;

verus! {

/// What the driver is to do next.
#[derive(Clone, Debug, PartialEq, Eq)]
pub enum CloudAction {
    /// Look for an inbound message without waiting; answer with `Message`,
    /// `Malformed`, `Quiet` or `Disconnected`.
    Poll,
    /// Append the command to the command queue; answer with `Done`.
    Enqueue(GatewayCommand),
    /// Set the discovery flag; answer with `Done`.
    RequestDiscovery,
    /// Take the waiting snapshot out of the state slot; answer with `State`.
    TakeState,
    /// Publish the snapshot once; answer with `Published`.
    Publish { topic: String, snapshot: GatewayState, qos: i32 },
    /// Wait for so many seconds; answer with `Done`.
    Pause { seconds: u64 },
    /// Nothing: the iteration is over, answer with `Wake`.
    Rest,
    /// Leave the loop: the session is gone.
    Stop,
    /// The event did not answer the action that the loop waits for, and was
    /// ignored. The loop still waits for that answer.
    Unexpected,
}

/// A `CloudAction` as a mathematical value.
pub enum CloudActionView {
    Poll,
    Enqueue(Seq<DeviceCommand>),
    RequestDiscovery,
    TakeState,
    Publish { topic: Seq<char>, snapshot: Seq<DeviceState>, qos: i32 },
    Pause { seconds: u64 },
    Rest,
    Stop,
    Unexpected,
}

impl View for CloudAction {
    type V = CloudActionView;

    open spec fn view(&self) -> CloudActionView {
        match *self {
            CloudAction::Poll => CloudActionView::Poll,
            CloudAction::Enqueue(command) => CloudActionView::Enqueue(command@),
            CloudAction::RequestDiscovery => CloudActionView::RequestDiscovery,
            CloudAction::TakeState => CloudActionView::TakeState,
            CloudAction::Publish { topic, snapshot, qos } => CloudActionView::Publish {
                topic: topic@,
                snapshot: snapshot@,
                qos,
            },
            CloudAction::Pause { seconds } => CloudActionView::Pause { seconds },
            CloudAction::Rest => CloudActionView::Rest,
            CloudAction::Stop => CloudActionView::Stop,
            CloudAction::Unexpected => CloudActionView::Unexpected,
        }
    }
}

/// What the loop has to report about the event it was just handed.
#[derive(Clone, Copy, Debug, PartialEq, Eq, Structural)]
pub enum CloudReport {
    Nothing,
    /// An inbound message could not be read and was dropped.
    Discarded,
    /// The snapshot could not be published. It is lost, not published again.
    PublishFailed,
}

/// The answer of the loop to one event.
#[derive(Clone, Debug, PartialEq, Eq)]
pub struct CloudOutput {
    pub report: CloudReport,
    pub action: CloudAction,
}

/// What came of the action that the driver performed.
#[derive(Clone, Debug, PartialEq, Eq)]
pub enum CloudEvent {
    /// A new iteration may start.
    Wake,
    /// An inbound message was read: its sub-commands, and whether it bears
    /// the discovery marker.
    Message { command: GatewayCommand, discover: bool },
    /// An inbound message arrived that could not be read.
    Malformed,
    /// No inbound message waits.
    Quiet,
    /// The session is gone.
    Disconnected,
    /// The action was carried out.
    Done,
    /// What was taken out of the state slot.
    State(Option<GatewayState>),
    /// The snapshot was published, or failed to be.
    Published { ok: bool },
}

/// A `CloudEvent` as a mathematical value.
pub enum CloudEventView {
    Wake,
    Message { command: Seq<DeviceCommand>, discover: bool },
    Malformed,
    Quiet,
    Disconnected,
    Done,
    State(Option<Seq<DeviceState>>),
    Published { ok: bool },
}

impl View for CloudEvent {
    type V = CloudEventView;

    open spec fn view(&self) -> CloudEventView {
        match *self {
            CloudEvent::Wake => CloudEventView::Wake,
            CloudEvent::Message { command, discover } => CloudEventView::Message {
                command: command@,
                discover,
            },
            CloudEvent::Malformed => CloudEventView::Malformed,
            CloudEvent::Quiet => CloudEventView::Quiet,
            CloudEvent::Disconnected => CloudEventView::Disconnected,
            CloudEvent::Done => CloudEventView::Done,
            CloudEvent::State(Some(snapshot)) => CloudEventView::State(Some(snapshot@)),
            CloudEvent::State(None) => CloudEventView::State(None),
            CloudEvent::Published { ok } => CloudEventView::Published { ok },
        }
    }
}

/// Where the loop stands.
#[derive(Clone, Copy, Debug, PartialEq, Eq, Structural)]
pub enum CloudState {
    /// Between two iterations.
    Idle,
    /// An inbound message is being looked for.
    Receiving,
    /// What a message held is being deposited.
    Depositing,
    /// The state slot is being emptied.
    TakingState,
    /// A snapshot is being published.
    Publishing,
    /// The pause after a publication.
    Pausing,
    /// The session is gone; the loop has ended.
    Stopped,
}

/// The loop as a mathematical value.
pub struct CloudModel {
    /// The identifier of the gateway, which names its topics.
    pub gateway_id: Seq<char>,
    pub state: CloudState,
}

/// What an inbound message asks for: a discovery, if it bears the marker and
/// holds no sub-command; else the dispatch of its sub-commands.
pub open spec fn deposit_spec(command: Seq<DeviceCommand>, discover: bool) -> CloudActionView {
    if discover && command.len() == 0 {
        CloudActionView::RequestDiscovery
    } else {
        CloudActionView::Enqueue(command)
    }
}

/// One step of the loop: the state and the answer that follow `event`.
///
/// An iteration runs `Poll`, then `Enqueue` or `RequestDiscovery` if a message
/// was read, then `TakeState`, and, where a snapshot waited, `Publish` and
/// `Pause`. A message that could not be read and a publication that failed are
/// reported and change nothing else. Once the session is gone the loop stays
/// stopped. An event that does not answer the action in progress changes
/// nothing.
pub open spec fn step_spec(model: CloudModel, event: CloudEventView) -> (
    CloudModel,
    CloudReport,
    CloudActionView,
) {
    let quiet = |state: CloudState, action: CloudActionView|
        (CloudModel { state, ..model }, CloudReport::Nothing, action);
    match (model.state, event) {
        (CloudState::Stopped, _) => quiet(CloudState::Stopped, CloudActionView::Stop),
        (CloudState::Idle, CloudEventView::Wake) => quiet(
            CloudState::Receiving,
            CloudActionView::Poll,
        ),
        (CloudState::Receiving, CloudEventView::Message { command, discover }) => quiet(
            CloudState::Depositing,
            deposit_spec(command, discover),
        ),
        (CloudState::Receiving, CloudEventView::Malformed) => (
            CloudModel { state: CloudState::TakingState, ..model },
            CloudReport::Discarded,
            CloudActionView::TakeState,
        ),
        (CloudState::Receiving, CloudEventView::Quiet) => quiet(
            CloudState::TakingState,
            CloudActionView::TakeState,
        ),
        (CloudState::Receiving, CloudEventView::Disconnected) => quiet(
            CloudState::Stopped,
            CloudActionView::Stop,
        ),
        (CloudState::Depositing, CloudEventView::Done) => quiet(
            CloudState::TakingState,
            CloudActionView::TakeState,
        ),
        (CloudState::TakingState, CloudEventView::State(Some(snapshot))) => quiet(
            CloudState::Publishing,
            CloudActionView::Publish {
                topic: state_topic_spec(model.gateway_id),
                snapshot,
                qos: STATE_QOS,
            },
        ),
        (CloudState::TakingState, CloudEventView::State(None)) => quiet(
            CloudState::Idle,
            CloudActionView::Rest,
        ),
        (CloudState::Publishing, CloudEventView::Published { ok }) => (
            CloudModel { state: CloudState::Pausing, ..model },
            if ok {
                CloudReport::Nothing
            } else {
                CloudReport::PublishFailed
            },
            CloudActionView::Pause { seconds: PUBLISH_PAUSE_S },
        ),
        (CloudState::Pausing, CloudEventView::Done) => quiet(
            CloudState::Idle,
            CloudActionView::Rest,
        ),
        (state, _) => quiet(state, CloudActionView::Unexpected),
    }
}

/// The loop of the cloud thread.
pub struct CloudLoop {
    gateway_id: String,
    state: CloudState,
}

impl View for CloudLoop {
    type V = CloudModel;

    closed spec fn view(&self) -> CloudModel {
        CloudModel { gateway_id: self.gateway_id@, state: self.state }
    }
}

impl CloudLoop {
    /// A loop between two iterations, for the gateway `gateway_id`.
    pub fn new(gateway_id: &str) -> (cloud: CloudLoop)
        ensures
            cloud@ == (CloudModel { gateway_id: gateway_id@, state: CloudState::Idle }),
    {
        CloudLoop { gateway_id: gateway_id.to_owned(), state: CloudState::Idle }
    }

    /// Where the loop stands.
    pub fn state(&self) -> (state: CloudState)
        ensures
            state == self@.state,
    {
        self.state
    }

    /// Takes one event and answers with what to report and what to do next.
    pub fn step(&mut self, event: CloudEvent) -> (output: CloudOutput)
        ensures
            (final(self)@, output.report, output.action@) == step_spec(old(self)@, event@),
    {
        let mut report = CloudReport::Nothing;
        let action: CloudAction;
        match (self.state, event) {
            (CloudState::Stopped, _) => {
                action = CloudAction::Stop;
            },
            (CloudState::Idle, CloudEvent::Wake) => {
                self.state = CloudState::Receiving;
                action = CloudAction::Poll;
            },
            (CloudState::Receiving, CloudEvent::Message { command, discover }) => {
                self.state = CloudState::Depositing;
                if discover && command.device_commands.len() == 0 {
                    action = CloudAction::RequestDiscovery;
                } else {
                    action = CloudAction::Enqueue(command);
                }
            },
            (CloudState::Receiving, CloudEvent::Malformed) => {
                self.state = CloudState::TakingState;
                report = CloudReport::Discarded;
                action = CloudAction::TakeState;
            },
            (CloudState::Receiving, CloudEvent::Quiet) => {
                self.state = CloudState::TakingState;
                action = CloudAction::TakeState;
            },
            (CloudState::Receiving, CloudEvent::Disconnected) => {
                self.state = CloudState::Stopped;
                action = CloudAction::Stop;
            },
            (CloudState::Depositing, CloudEvent::Done) => {
                self.state = CloudState::TakingState;
                action = CloudAction::TakeState;
            },
            (CloudState::TakingState, CloudEvent::State(Some(snapshot))) => {
                self.state = CloudState::Publishing;
                action = CloudAction::Publish {
                    topic: state_topic(self.gateway_id.as_str()),
                    snapshot,
                    qos: STATE_QOS,
                };
            },
            (CloudState::TakingState, CloudEvent::State(None)) => {
                self.state = CloudState::Idle;
                action = CloudAction::Rest;
            },
            (CloudState::Publishing, CloudEvent::Published { ok }) => {
                self.state = CloudState::Pausing;
                if !ok {
                    report = CloudReport::PublishFailed;
                }
                action = CloudAction::Pause { seconds: PUBLISH_PAUSE_S };
            },
            (CloudState::Pausing, CloudEvent::Done) => {
                self.state = CloudState::Idle;
                action = CloudAction::Rest;
            },
            _ => {
                action = CloudAction::Unexpected;
            },
        }
        CloudOutput { report, action }
    }
}

/// Only the latest state is published: when bus events pass between two
/// publications, the snapshot that the loop then asks to publish holds the
/// state of the last event that reports one, and nothing of the events before
/// it. It goes to the state topic of the gateway.
pub proof fn lemma_only_latest_state_is_published(
    model: CloudModel,
    slot: Option<Seq<DeviceState>>,
    events: Seq<BusEvent>,
    last: int,
)
    requires
        model.state is TakingState,
        0 <= last < events.len(),
        telemetry_state_spec(events[last]) is Some,
        forall|j: int| last < j < events.len() ==> telemetry_state_spec(#[trigger] events[j]) is None,
    ensures
        step_spec(model, CloudEventView::State(observed_all(slot, events))).2
            == (CloudActionView::Publish {
            topic: state_topic_spec(model.gateway_id),
            snapshot: seq![telemetry_state_spec(events[last])->Some_0],
            qos: STATE_QOS,
        }),
{
    lemma_latest_state_wins(slot, events, last);
}

} // verus!
