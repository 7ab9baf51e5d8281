//! The bus thread's loop as a state machine. One iteration services the bus,
//! then sends the events of the latest command, then serves a discovery
//! request. The machine decides; its driver performs each action and hands
//! back what came of it.

use crate::bus::BusEvent;
use crate::command::{DeviceCommand, GatewayCommand};
use crate::engine::{
    command_events,
    command_events_spec,
    discovery_events,
    discovery_events_spec,
};
use crate::mailbox::{drained, lemma_latest_command_wins};
use vstd::prelude::*;

verus! {

/// The part of an iteration that the loop is in.
#[derive(Clone, Copy, Debug, PartialEq, Eq, Structural)]
pub enum LoopPhase {
    Idle,
    ServicingBus,
    DispatchingCommands,
    ServicingDiscovery,
}

/// The batch of events that is being sent.
#[derive(Clone, Copy, Debug, PartialEq, Eq, Structural)]
pub enum Batch {
    /// The events of a command.
    Commands,
    /// The discovery events.
    Discovery,
}

/// What the driver is to do next.
#[derive(Clone, Copy, Debug, PartialEq, Eq, Structural)]
pub enum LoopAction {
    /// Service the bus transport; answer with `Ticked`.
    Tick,
    /// Drain the command queue; answer with `Command`.
    TakeCommand,
    /// Encode the event and send it once; answer with `Sent`.
    Send(BusEvent),
    /// Read the discovery flag; answer with `Discovery`.
    ReadDiscovery,
    /// List the devices on the bus; answer with `Devices`.
    Enumerate,
    /// Clear the discovery flag; the iteration is over, answer with `Wake`.
    ClearDiscovery,
    /// Nothing: the iteration is over, answer with `Wake`.
    Rest,
    /// The event did not answer the action that the loop waits for, and was
    /// ignored. The loop still waits for that answer.
    Unexpected,
}

/// What the loop has to report about the event it was just handed.
#[derive(Clone, Copy, Debug, PartialEq, Eq, Structural)]
pub enum Report {
    Nothing,
    /// The bus transport failed to tick. The iteration goes on.
    TickFailed,
    /// The event was sent.
    Sent(BusEvent),
    /// The event could not be sent. It is not sent again.
    SendFailed(BusEvent),
}

/// The answer of the loop to one event.
#[derive(Clone, Copy, Debug, PartialEq, Eq, Structural)]
pub struct LoopOutput {
    pub report: Report,
    pub action: LoopAction,
}

/// What came of the action that the driver performed.
#[derive(Clone, Debug, PartialEq, Eq)]
pub enum LoopEvent {
    /// A new iteration may start.
    Wake,
    /// The bus transport was serviced, with or without a fault.
    Ticked { ok: bool },
    /// What the drain of the command queue handed out.
    Command(Option<GatewayCommand>),
    /// The event in flight was sent, or failed to be.
    Sent { ok: bool },
    /// The discovery flag as it was read.
    Discovery { requested: bool },
    /// The bootloader addresses of the devices found on the bus.
    Devices(Vec<u16>),
}

/// A `LoopEvent` as a mathematical value.
pub enum LoopEventView {
    Wake,
    Ticked { ok: bool },
    Command(Option<Seq<DeviceCommand>>),
    Sent { ok: bool },
    Discovery { requested: bool },
    Devices(Seq<u16>),
}

impl View for LoopEvent {
    type V = LoopEventView;

    open spec fn view(&self) -> LoopEventView {
        match *self {
            LoopEvent::Wake => LoopEventView::Wake,
            LoopEvent::Ticked { ok } => LoopEventView::Ticked { ok },
            LoopEvent::Command(Some(command)) => LoopEventView::Command(Some(command@)),
            LoopEvent::Command(None) => LoopEventView::Command(None),
            LoopEvent::Sent { ok } => LoopEventView::Sent { ok },
            LoopEvent::Discovery { requested } => LoopEventView::Discovery { requested },
            LoopEvent::Devices(addresses) => LoopEventView::Devices(addresses@),
        }
    }
}

/// Where the loop stands, as a mathematical value.
pub enum LoopState {
    /// Between two iterations.
    Idle,
    /// The bus transport is being serviced.
    ServicingBus,
    /// The command queue is being drained.
    TakingCommand,
    /// `in_flight` is being sent, `rest` comes after it.
    Sending { batch: Batch, in_flight: BusEvent, rest: Seq<BusEvent> },
    /// The discovery flag is being read.
    ReadingDiscovery,
    /// The devices are being listed.
    Enumerating,
}

/// The loop as a mathematical value.
pub struct LoopModel {
    /// The gateway's own address on the bus.
    pub programmer_address: u16,
    pub state: LoopState,
}

impl LoopState {
    /// The part of the iteration that a state belongs to.
    pub open spec fn phase(self) -> LoopPhase {
        match self {
            LoopState::Idle => LoopPhase::Idle,
            LoopState::ServicingBus => LoopPhase::ServicingBus,
            LoopState::TakingCommand => LoopPhase::DispatchingCommands,
            LoopState::Sending { batch: Batch::Commands, .. } => LoopPhase::DispatchingCommands,
            LoopState::Sending { batch: Batch::Discovery, .. } => LoopPhase::ServicingDiscovery,
            LoopState::ReadingDiscovery => LoopPhase::ServicingDiscovery,
            LoopState::Enumerating => LoopPhase::ServicingDiscovery,
        }
    }
}

impl Batch {
    /// The state that follows a batch.
    pub open spec fn then_state(self) -> LoopState {
        match self {
            Batch::Commands => LoopState::ReadingDiscovery,
            Batch::Discovery => LoopState::Idle,
        }
    }

    /// The action that follows a batch.
    pub open spec fn then_action(self) -> LoopAction {
        match self {
            Batch::Commands => LoopAction::ReadDiscovery,
            Batch::Discovery => LoopAction::ClearDiscovery,
        }
    }
}

/// What is reported of an event once its sending is over.
pub open spec fn send_report(ok: bool, event: BusEvent) -> Report {
    if ok {
        Report::Sent(event)
    } else {
        Report::SendFailed(event)
    }
}

/// Goes on with a batch of which `events` are left: the first of them is
/// sent next; with none left the batch is over.
pub open spec fn proceed(batch: Batch, events: Seq<BusEvent>) -> (LoopState, LoopAction) {
    if events.len() > 0 {
        (
            LoopState::Sending { batch, in_flight: events.first(), rest: events.drop_first() },
            LoopAction::Send(events.first()),
        )
    } else {
        (batch.then_state(), batch.then_action())
    }
}

/// One step of the loop: the state and the answer that follow `event`.
///
/// An iteration runs `Tick`, `TakeCommand`, one `Send` for each sub-command
/// of the command that was handed out, `ReadDiscovery`, and, where the flag was
/// set, `Enumerate`, one `Send` for each device and `ClearDiscovery`. A failed
/// tick or send is reported and changes nothing else. An event that does not
/// answer the action in progress changes nothing.
pub open spec fn step_spec(model: LoopModel, event: LoopEventView) -> (LoopModel, LoopOutput) {
    let quiet = |next: (LoopState, LoopAction)|
        (
            LoopModel { state: next.0, ..model },
            LoopOutput { report: Report::Nothing, action: next.1 },
        );
    match (model.state, event) {
        (LoopState::Idle, LoopEventView::Wake) => quiet(
            (LoopState::ServicingBus, LoopAction::Tick),
        ),
        (LoopState::ServicingBus, LoopEventView::Ticked { ok }) => (
            LoopModel { state: LoopState::TakingCommand, ..model },
            LoopOutput {
                report: if ok {
                    Report::Nothing
                } else {
                    Report::TickFailed
                },
                action: LoopAction::TakeCommand,
            },
        ),
        (LoopState::TakingCommand, LoopEventView::Command(Some(command))) => quiet(
            proceed(Batch::Commands, command_events_spec(command, model.programmer_address)),
        ),
        (LoopState::TakingCommand, LoopEventView::Command(None)) => quiet(
            proceed(Batch::Commands, Seq::empty()),
        ),
        (LoopState::Sending { batch, in_flight, rest }, LoopEventView::Sent { ok }) => {
            let next = proceed(batch, rest);
            (
                LoopModel { state: next.0, ..model },
                LoopOutput { report: send_report(ok, in_flight), action: next.1 },
            )
        },
        (LoopState::ReadingDiscovery, LoopEventView::Discovery { requested }) => quiet(
            if requested {
                (LoopState::Enumerating, LoopAction::Enumerate)
            } else {
                (LoopState::Idle, LoopAction::Rest)
            },
        ),
        (LoopState::Enumerating, LoopEventView::Devices(addresses)) => quiet(
            proceed(Batch::Discovery, discovery_events_spec(addresses, model.programmer_address)),
        ),
        (state, _) => quiet((state, LoopAction::Unexpected)),
    }
}

/// The loop after `events`, and its answers to them in their order.
pub open spec fn run(model: LoopModel, events: Seq<LoopEventView>) -> (LoopModel, Seq<LoopOutput>)
    decreases events.len(),
{
    if events.len() == 0 {
        (model, Seq::empty())
    } else {
        let (next, output) = step_spec(model, events.first());
        let (last, outputs) = run(next, events.drop_first());
        (last, seq![output] + outputs)
    }
}

/// The events that answer one `Send` each, with the given outcomes.
pub open spec fn sent_events(outcomes: Seq<bool>) -> Seq<LoopEventView> {
    Seq::new(outcomes.len(), |i: int| LoopEventView::Sent { ok: outcomes[i] })
}

#[derive(Clone, Copy)]
enum Stage {
    Idle,
    ServicingBus,
    TakingCommand,
    Sending(Batch, BusEvent),
    ReadingDiscovery,
    Enumerating,
}

/// The loop of the bus thread.
pub struct GatewayLoop {
    programmer_address: u16,
    stage: Stage,
    /// The batch that is being sent.
    outbox: Vec<BusEvent>,
    /// How many events of `outbox` have been handed out.
    cursor: usize,
}

impl View for GatewayLoop {
    type V = LoopModel;

    closed spec fn view(&self) -> LoopModel {
        LoopModel {
            programmer_address: self.programmer_address,
            state: match self.stage {
                Stage::Idle => LoopState::Idle,
                Stage::ServicingBus => LoopState::ServicingBus,
                Stage::TakingCommand => LoopState::TakingCommand,
                Stage::Sending(batch, in_flight) => LoopState::Sending {
                    batch,
                    in_flight,
                    rest: self.remaining(),
                },
                Stage::ReadingDiscovery => LoopState::ReadingDiscovery,
                Stage::Enumerating => LoopState::Enumerating,
            },
        }
    }
}

impl GatewayLoop {
    /// The events of the batch that have not been handed out.
    closed spec fn remaining(&self) -> Seq<BusEvent> {
        if self.cursor <= self.outbox@.len() {
            self.outbox@.skip(self.cursor as int)
        } else {
            Seq::empty()
        }
    }

    /// A loop between two iterations, for a gateway that sends from
    /// `programmer_address`.
    pub fn new(programmer_address: u16) -> (gateway: GatewayLoop)
        ensures
            gateway@ == (LoopModel { programmer_address, state: LoopState::Idle }),
    {
        GatewayLoop { programmer_address, stage: Stage::Idle, outbox: Vec::new(), cursor: 0 }
    }

    /// The gateway's own address on the bus.
    pub fn programmer_address(&self) -> (address: u16)
        ensures
            address == self@.programmer_address,
    {
        self.programmer_address
    }

    /// The part of the iteration that the loop is in.
    pub fn phase(&self) -> (phase: LoopPhase)
        ensures
            phase == self@.state.phase(),
    {
        match self.stage {
            Stage::Idle => LoopPhase::Idle,
            Stage::ServicingBus => LoopPhase::ServicingBus,
            Stage::TakingCommand => LoopPhase::DispatchingCommands,
            Stage::Sending(Batch::Commands, _) => LoopPhase::DispatchingCommands,
            Stage::Sending(Batch::Discovery, _) => LoopPhase::ServicingDiscovery,
            Stage::ReadingDiscovery => LoopPhase::ServicingDiscovery,
            Stage::Enumerating => LoopPhase::ServicingDiscovery,
        }
    }

    /// Hands out the next event of the batch, or ends the batch.
    fn proceed(&mut self, batch: Batch) -> (action: LoopAction)
        ensures
            final(self).programmer_address == old(self).programmer_address,
            (final(self)@.state, action) == proceed(batch, old(self).remaining()),
    {
        if self.cursor < self.outbox.len() {
            let event = self.outbox[self.cursor];
            self.cursor += 1;
            self.stage = Stage::Sending(batch, event);
            assert(self.remaining() == old(self).remaining().drop_first());
            LoopAction::Send(event)
        } else {
            match batch {
                Batch::Commands => {
                    self.stage = Stage::ReadingDiscovery;
                    LoopAction::ReadDiscovery
                },
                Batch::Discovery => {
                    self.stage = Stage::Idle;
                    LoopAction::ClearDiscovery
                },
            }
        }
    }

    /// Starts on a batch of events.
    fn begin(&mut self, batch: Batch, events: Vec<BusEvent>) -> (action: LoopAction)
        ensures
            final(self).programmer_address == old(self).programmer_address,
            (final(self)@.state, action) == proceed(batch, events@),
    {
        self.outbox = events;
        self.cursor = 0;
        assert(self.remaining() == events@);
        self.proceed(batch)
    }

    /// Takes one event and answers with what to report and what to do next.
    pub fn step(&mut self, event: LoopEvent) -> (output: LoopOutput)
        ensures
            (final(self)@, output) == step_spec(old(self)@, event@),
    {
        let report: Report;
        let action: LoopAction;
        match (self.stage, event) {
            (Stage::Idle, LoopEvent::Wake) => {
                self.stage = Stage::ServicingBus;
                report = Report::Nothing;
                action = LoopAction::Tick;
            },
            (Stage::ServicingBus, LoopEvent::Ticked { ok }) => {
                self.stage = Stage::TakingCommand;
                report = if ok {
                    Report::Nothing
                } else {
                    Report::TickFailed
                };
                action = LoopAction::TakeCommand;
            },
            (Stage::TakingCommand, LoopEvent::Command(Some(command))) => {
                let events = command_events(&command, self.programmer_address);
                report = Report::Nothing;
                action = self.begin(Batch::Commands, events);
            },
            (Stage::TakingCommand, LoopEvent::Command(None)) => {
                report = Report::Nothing;
                action = self.begin(Batch::Commands, Vec::new());
            },
            (Stage::Sending(batch, in_flight), LoopEvent::Sent { ok }) => {
                report = if ok {
                    Report::Sent(in_flight)
                } else {
                    Report::SendFailed(in_flight)
                };
                action = self.proceed(batch);
            },
            (Stage::ReadingDiscovery, LoopEvent::Discovery { requested }) => {
                report = Report::Nothing;
                if requested {
                    self.stage = Stage::Enumerating;
                    action = LoopAction::Enumerate;
                } else {
                    self.stage = Stage::Idle;
                    action = LoopAction::Rest;
                }
            },
            (Stage::Enumerating, LoopEvent::Devices(addresses)) => {
                let events = discovery_events(&addresses, self.programmer_address);
                report = Report::Nothing;
                action = self.begin(Batch::Discovery, events);
            },
            _ => {
                report = Report::Nothing;
                action = LoopAction::Unexpected;
            },
        }
        LoopOutput { report, action }
    }
}

/// The actions of a run, in their order.
pub open spec fn actions(outputs: Seq<LoopOutput>) -> Seq<LoopAction> {
    Seq::new(outputs.len(), |i: int| outputs[i].action)
}

/// The reports of a run, in their order.
pub open spec fn reports(outputs: Seq<LoopOutput>) -> Seq<Report> {
    Seq::new(outputs.len(), |i: int| outputs[i].report)
}

/// One `Send` for each event, in their order.
pub open spec fn sends(events: Seq<BusEvent>) -> Seq<LoopAction> {
    Seq::new(events.len(), |i: int| LoopAction::Send(events[i]))
}

/// The report of each event's sending, in their order.
pub open spec fn send_reports(outcomes: Seq<bool>, events: Seq<BusEvent>) -> Seq<Report> {
    Seq::new(events.len(), |i: int| send_report(outcomes[i], events[i]))
}

/// The events of one whole iteration: the bus is serviced, `command` is what
/// the drain hands out and `command_outcomes` what comes of its sends; then
/// either the discovery flag is read as not set (`discovery` is `None`), or it
/// is read as set, the devices listed are `discovery->0.0`, and what comes of
/// their sends is `discovery->0.1`.
pub open spec fn iteration_events(
    tick_ok: bool,
    command: Option<Seq<DeviceCommand>>,
    command_outcomes: Seq<bool>,
    discovery: Option<(Seq<u16>, Seq<bool>)>,
) -> Seq<LoopEventView> {
    seq![
        LoopEventView::Wake,
        LoopEventView::Ticked { ok: tick_ok },
        LoopEventView::Command(command),
    ] + sent_events(command_outcomes) + match discovery {
        None => seq![LoopEventView::Discovery { requested: false }],
        Some((addresses, outcomes)) => seq![
            LoopEventView::Discovery { requested: true },
            LoopEventView::Devices(addresses),
        ] + sent_events(outcomes),
    }
}

/// The bus events that a drained command stands for.
pub open spec fn drained_events(
    command: Option<Seq<DeviceCommand>>,
    programmer_address: u16,
) -> Seq<BusEvent> {
    match command {
        Some(command) => command_events_spec(command, programmer_address),
        None => Seq::empty(),
    }
}

/// The actions of one whole iteration.
pub open spec fn iteration_actions(
    programmer_address: u16,
    command: Option<Seq<DeviceCommand>>,
    discovery: Option<Seq<u16>>,
) -> Seq<LoopAction> {
    seq![LoopAction::Tick, LoopAction::TakeCommand] + sends(
        drained_events(command, programmer_address),
    ) + seq![LoopAction::ReadDiscovery] + match discovery {
        None => seq![LoopAction::Rest],
        Some(addresses) => seq![LoopAction::Enumerate] + sends(
            discovery_events_spec(addresses, programmer_address),
        ) + seq![LoopAction::ClearDiscovery],
    }
}

/// The run over one event is one step.
pub proof fn lemma_run_of_one(model: LoopModel, event: LoopEventView)
    ensures
        run(model, seq![event]) == (step_spec(model, event).0, seq![step_spec(model, event).1]),
{
    let next = step_spec(model, event).0;
    assert(seq![event].drop_first().len() == 0);
    assert(run(next, seq![event].drop_first()).1 == Seq::<LoopOutput>::empty());
    assert(seq![step_spec(model, event).1] + Seq::<LoopOutput>::empty() =~= seq![
        step_spec(model, event).1,
    ]);
}

/// Running over two sequences of events, one after the other, is running
/// over the first and then, from where that ended, over the second.
pub proof fn lemma_run_in_two_parts(
    model: LoopModel,
    first: Seq<LoopEventView>,
    second: Seq<LoopEventView>,
)
    ensures
        run(model, first + second) == (
            run(run(model, first).0, second).0,
            run(model, first).1 + run(run(model, first).0, second).1,
        ),
    decreases first.len(),
{
    if first.len() == 0 {
        assert(first + second =~= second);
        assert(Seq::<LoopOutput>::empty() + run(model, second).1 =~= run(model, second).1);
    } else {
        let (next, output) = step_spec(model, first.first());
        assert((first + second).drop_first() =~= first.drop_first() + second);
        lemma_run_in_two_parts(next, first.drop_first(), second);
        let middle = run(next, first.drop_first());
        let rest = run(middle.0, second);
        assert(seq![output] + (middle.1 + rest.1) =~= (seq![output] + middle.1) + rest.1);
    }
}

/// A batch runs to its end whatever comes of each send: with `in_flight` on
/// its way and `rest` behind it, every event of `rest` is sent in turn, each
/// outcome is reported with its own event, and the batch ends as it always
/// does.
pub proof fn lemma_batch_runs_to_end(
    model: LoopModel,
    batch: Batch,
    in_flight: BusEvent,
    rest: Seq<BusEvent>,
    outcomes: Seq<bool>,
)
    requires
        model.state == (LoopState::Sending { batch, in_flight, rest }),
        outcomes.len() == rest.len() + 1,
    ensures
        run(model, sent_events(outcomes)).0 == (LoopModel { state: batch.then_state(), ..model }),
        actions(run(model, sent_events(outcomes)).1) == sends(rest) + seq![batch.then_action()],
        reports(run(model, sent_events(outcomes)).1) == send_reports(
            outcomes,
            seq![in_flight] + rest,
        ),
    decreases rest.len(),
{
    let events = sent_events(outcomes);
    let (next, output) = step_spec(model, events.first());
    let (last, outputs) = run(next, events.drop_first());
    assert(events.drop_first() =~= sent_events(outcomes.drop_first()));
    if rest.len() > 0 {
        lemma_batch_runs_to_end(next, batch, rest.first(), rest.drop_first(), outcomes.drop_first());
        assert(actions(seq![output] + outputs) =~= seq![output.action] + actions(outputs));
        assert(reports(seq![output] + outputs) =~= seq![output.report] + reports(outputs));
        assert(seq![output.action] + (sends(rest.drop_first()) + seq![batch.then_action()])
            =~= sends(rest) + seq![batch.then_action()]);
        assert(seq![output.report] + send_reports(
            outcomes.drop_first(),
            seq![rest.first()] + rest.drop_first(),
        ) =~= send_reports(outcomes, seq![in_flight] + rest));
    } else {
        assert(actions(seq![output] + outputs) =~= sends(rest) + seq![batch.then_action()]);
        assert(reports(seq![output] + outputs) =~= send_reports(outcomes, seq![in_flight] + rest));
    }
}

/// The run of a batch from the step that begins it: `next` and `action` are
/// what that step gave for the batch `events`.
proof fn lemma_begun_batch_runs_to_end(
    next: LoopModel,
    action: LoopAction,
    batch: Batch,
    events: Seq<BusEvent>,
    outcomes: Seq<bool>,
)
    requires
        (next.state, action) == proceed(batch, events),
        outcomes.len() == events.len(),
    ensures
        run(next, sent_events(outcomes)).0 == (LoopModel { state: batch.then_state(), ..next }),
        seq![action] + actions(run(next, sent_events(outcomes)).1) == sends(events)
            + seq![batch.then_action()],
        reports(run(next, sent_events(outcomes)).1) == send_reports(outcomes, events),
{
    let outputs = run(next, sent_events(outcomes)).1;
    if events.len() > 0 {
        lemma_batch_runs_to_end(next, batch, events.first(), events.drop_first(), outcomes);
        assert(seq![events.first()] + events.drop_first() =~= events);
        assert(seq![action] + (sends(events.drop_first()) + seq![batch.then_action()]) =~= sends(
            events,
        ) + seq![batch.then_action()]);
    } else {
        assert(seq![action] + actions(outputs) =~= sends(events) + seq![batch.then_action()]);
        assert(reports(outputs) =~= send_reports(outcomes, events));
    }
}

/// Every sub-command is attempted, in order, and a failed send stops nothing:
/// after the drain handed out a command, the loop asks for one send for each
/// sub-command whatever the outcomes of the sends before it, reports each
/// outcome with its own event, and then turns to discovery. With nothing
/// handed out it turns to discovery at once.
pub proof fn lemma_every_sub_command_is_attempted(
    model: LoopModel,
    command: Option<Seq<DeviceCommand>>,
    outcomes: Seq<bool>,
)
    requires
        model.state is TakingCommand,
        outcomes.len() == drained_events(command, model.programmer_address).len(),
    ensures
        ({
            let events = seq![LoopEventView::Command(command)] + sent_events(outcomes);
            let attempted = drained_events(command, model.programmer_address);
            let (last, outputs) = run(model, events);
            &&& last == LoopModel { state: LoopState::ReadingDiscovery, ..model }
            &&& actions(outputs) == sends(attempted) + seq![LoopAction::ReadDiscovery]
            &&& reports(outputs) == seq![Report::Nothing] + send_reports(outcomes, attempted)
        }),
{
    let events = seq![LoopEventView::Command(command)] + sent_events(outcomes);
    let attempted = drained_events(command, model.programmer_address);
    let (next, output) = step_spec(model, events.first());
    let (last, outputs) = run(next, events.drop_first());
    assert(events.drop_first() =~= sent_events(outcomes));
    lemma_begun_batch_runs_to_end(next, output.action, Batch::Commands, attempted, outcomes);
    assert(actions(seq![output] + outputs) =~= seq![output.action] + actions(outputs));
    assert(reports(seq![output] + outputs) =~= seq![Report::Nothing] + reports(outputs));
}

/// A discovery reaches every device: once the flag was read as set and the
/// devices were listed, the loop asks for one discovery event for each device,
/// in order, addressed to the device's bootloader address with the gateway as
/// the sender, whatever the outcomes of the sends, and then has the flag
/// cleared. Devices with different addresses get different events.
pub proof fn lemma_discovery_reaches_every_device(
    model: LoopModel,
    addresses: Seq<u16>,
    outcomes: Seq<bool>,
)
    requires
        model.state is ReadingDiscovery,
        outcomes.len() == addresses.len(),
    ensures
        ({
            let events = seq![
                LoopEventView::Discovery { requested: true },
                LoopEventView::Devices(addresses),
            ] + sent_events(outcomes);
            let discoveries = discovery_events_spec(addresses, model.programmer_address);
            let (last, outputs) = run(model, events);
            &&& last == LoopModel { state: LoopState::Idle, ..model }
            &&& actions(outputs) == seq![LoopAction::Enumerate] + sends(discoveries)
                + seq![LoopAction::ClearDiscovery]
            &&& reports(outputs) == seq![Report::Nothing, Report::Nothing] + send_reports(
                outcomes,
                discoveries,
            )
            &&& forall|i: int, j: int|
                0 <= i < addresses.len() && 0 <= j < addresses.len() && addresses[i]
                    != addresses[j] ==> discoveries[i] != discoveries[j]
        }),
{
    let events = seq![
        LoopEventView::Discovery { requested: true },
        LoopEventView::Devices(addresses),
    ] + sent_events(outcomes);
    let discoveries = discovery_events_spec(addresses, model.programmer_address);
    let (listing, first) = step_spec(model, events.first());
    let later = events.drop_first();
    let (next, second) = step_spec(listing, later.first());
    let (last, outputs) = run(next, later.drop_first());
    assert(run(listing, later) == (last, seq![second] + outputs));
    assert(later.drop_first() =~= sent_events(outcomes));
    lemma_begun_batch_runs_to_end(next, second.action, Batch::Discovery, discoveries, outcomes);
    let all = seq![first] + (seq![second] + outputs);
    assert(actions(all) =~= seq![first.action] + (seq![second.action] + actions(outputs)));
    assert(reports(all) =~= seq![Report::Nothing, Report::Nothing] + reports(outputs));
    assert(seq![first.action] + (sends(discoveries) + seq![LoopAction::ClearDiscovery])
        =~= seq![LoopAction::Enumerate] + sends(discoveries) + seq![LoopAction::ClearDiscovery]);
}

/// Of two commands appended before the queue is drained, the loop dispatches
/// the second alone: the sends it asks for are those of the second command's
/// sub-commands, and none of the first.
pub proof fn lemma_only_latest_command_is_dispatched(
    model: LoopModel,
    queue: Seq<Seq<DeviceCommand>>,
    first: Seq<DeviceCommand>,
    second: Seq<DeviceCommand>,
    outcomes: Seq<bool>,
)
    requires
        model.state is TakingCommand,
        outcomes.len() == second.len(),
    ensures
        ({
            let handed = drained(queue.push(first).push(second));
            let events = seq![LoopEventView::Command(handed)] + sent_events(outcomes);
            actions(run(model, events).1) == sends(
                command_events_spec(second, model.programmer_address),
            ) + seq![LoopAction::ReadDiscovery]
        }),
{
    lemma_latest_command_wins(queue, first, second);
    lemma_every_sub_command_is_attempted(model, Some(second), outcomes);
}

/// An iteration keeps its order: from idle, the loop services the bus, then
/// sends the events of the command that the drain handed out, then reads the
/// discovery flag and, if it was set, sends the discovery events and has the
/// flag cleared; then it is idle again. Neither a failed tick nor a failed
/// send changes what is asked for.
pub proof fn lemma_iteration_keeps_its_order(
    model: LoopModel,
    tick_ok: bool,
    command: Option<Seq<DeviceCommand>>,
    command_outcomes: Seq<bool>,
    discovery: Option<(Seq<u16>, Seq<bool>)>,
)
    requires
        model.state is Idle,
        command_outcomes.len() == drained_events(command, model.programmer_address).len(),
        discovery matches Some((addresses, outcomes)) ==> outcomes.len() == addresses.len(),
    ensures
        ({
            let events = iteration_events(tick_ok, command, command_outcomes, discovery);
            let listed = match discovery {
                Some((addresses, _)) => Some(addresses),
                None => None,
            };
            let (last, outputs) = run(model, events);
            &&& last == model
            &&& actions(outputs) == iteration_actions(model.programmer_address, command, listed)
        }),
{
    let opening = seq![LoopEventView::Wake, LoopEventView::Ticked { ok: tick_ok }];
    let dispatch = seq![LoopEventView::Command(command)] + sent_events(command_outcomes);
    let closing = match discovery {
        None => seq![LoopEventView::Discovery { requested: false }],
        Some((addresses, outcomes)) => seq![
            LoopEventView::Discovery { requested: true },
            LoopEventView::Devices(addresses),
        ] + sent_events(outcomes),
    };
    assert(iteration_events(tick_ok, command, command_outcomes, discovery) =~= opening + (dispatch
        + closing));

    let ticking = step_spec(model, LoopEventView::Wake).0;
    let taking = step_spec(ticking, LoopEventView::Ticked { ok: tick_ok }).0;
    lemma_run_of_one(model, LoopEventView::Wake);
    lemma_run_of_one(ticking, LoopEventView::Ticked { ok: tick_ok });
    lemma_run_in_two_parts(
        model,
        seq![LoopEventView::Wake],
        seq![LoopEventView::Ticked { ok: tick_ok }],
    );
    assert(opening =~= seq![LoopEventView::Wake] + seq![LoopEventView::Ticked { ok: tick_ok }]);
    let opened = run(model, opening);
    assert(opened.0 == taking);
    assert(actions(opened.1) =~= seq![LoopAction::Tick, LoopAction::TakeCommand]);

    lemma_every_sub_command_is_attempted(taking, command, command_outcomes);
    let dispatched = run(taking, dispatch);
    let reading = dispatched.0;

    let closed = run(reading, closing);
    match discovery {
        None => {
            lemma_run_of_one(reading, LoopEventView::Discovery { requested: false });
            assert(actions(closed.1) =~= seq![LoopAction::Rest]);
        },
        Some((addresses, outcomes)) => {
            lemma_discovery_reaches_every_device(reading, addresses, outcomes);
        },
    }
    lemma_run_in_two_parts(taking, dispatch, closing);
    lemma_run_in_two_parts(model, opening, dispatch + closing);
    assert(actions(opened.1 + (dispatched.1 + closed.1)) =~= actions(opened.1) + (actions(
        dispatched.1,
    ) + actions(closed.1)));
    let listed = match discovery {
        Some((addresses, _)) => Some(addresses),
        None => None,
    };
    assert(iteration_actions(model.programmer_address, command, listed) =~= actions(opened.1) + (
    actions(dispatched.1) + actions(closed.1)));
}

} // verus!
