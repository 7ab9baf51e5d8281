use ross_gateway::bus::{BcmValue, BusEvent, RelayValue};
use ross_gateway::command::{CommandPayload, DeviceCommand, GatewayCommand};
use ross_gateway::gateway::{GatewayLoop, LoopAction, LoopEvent, LoopOutput, LoopPhase, Report};
use ross_gateway::mailbox::{CommandQueue, DiscoveryFlag};

const PROGRAMMER: u16 = 0x0042;

fn quiet(action: LoopAction) -> LoopOutput {
    LoopOutput { report: Report::Nothing, action }
}

fn relay_on(address: u16) -> DeviceCommand {
    DeviceCommand {
        peripheral_address: address,
        peripheral_index: 2,
        payload: CommandPayload::RelayTurnOnSingle {},
    }
}

fn relay_on_event(address: u16) -> BusEvent {
    BusEvent::RelaySetValue {
        relay_address: address,
        transmitter_address: PROGRAMMER,
        index: 2,
        value: RelayValue::Single(true),
    }
}

fn discover_event(address: u16) -> BusEvent {
    BusEvent::GatewayDiscover { device_address: address, gateway_address: PROGRAMMER }
}

fn loop_taking_command() -> GatewayLoop {
    let mut gateway = GatewayLoop::new(PROGRAMMER);
    assert_eq!(gateway.step(LoopEvent::Wake), quiet(LoopAction::Tick));
    assert_eq!(gateway.step(LoopEvent::Ticked { ok: true }), quiet(LoopAction::TakeCommand));
    gateway
}

fn loop_reading_discovery() -> GatewayLoop {
    let mut gateway = loop_taking_command();
    assert_eq!(gateway.step(LoopEvent::Command(None)), quiet(LoopAction::ReadDiscovery));
    gateway
}

#[test]
fn new_loop_is_idle() {
    let gateway = GatewayLoop::new(PROGRAMMER);
    assert_eq!(gateway.phase(), LoopPhase::Idle);
    assert_eq!(gateway.programmer_address(), PROGRAMMER);
}

#[test]
fn iteration_without_work_goes_through_every_phase() {
    let mut gateway = GatewayLoop::new(PROGRAMMER);
    assert_eq!(gateway.step(LoopEvent::Wake), quiet(LoopAction::Tick));
    assert_eq!(gateway.phase(), LoopPhase::ServicingBus);
    assert_eq!(gateway.step(LoopEvent::Ticked { ok: true }), quiet(LoopAction::TakeCommand));
    assert_eq!(gateway.phase(), LoopPhase::DispatchingCommands);
    assert_eq!(gateway.step(LoopEvent::Command(None)), quiet(LoopAction::ReadDiscovery));
    assert_eq!(gateway.phase(), LoopPhase::ServicingDiscovery);
    assert_eq!(gateway.step(LoopEvent::Discovery { requested: false }), quiet(LoopAction::Rest));
    assert_eq!(gateway.phase(), LoopPhase::Idle);
    assert_eq!(gateway.step(LoopEvent::Wake), quiet(LoopAction::Tick));
}

#[test]
fn failed_tick_is_reported_and_the_iteration_goes_on() {
    let mut gateway = GatewayLoop::new(PROGRAMMER);
    gateway.step(LoopEvent::Wake);
    assert_eq!(
        gateway.step(LoopEvent::Ticked { ok: false }),
        LoopOutput { report: Report::TickFailed, action: LoopAction::TakeCommand }
    );
    assert_eq!(gateway.phase(), LoopPhase::DispatchingCommands);
}

#[test]
fn failed_send_does_not_stop_the_other_sub_commands() {
    let mut gateway = loop_taking_command();
    let command = GatewayCommand { device_commands: vec![relay_on(1), relay_on(2), relay_on(3)] };
    assert_eq!(
        gateway.step(LoopEvent::Command(Some(command))),
        quiet(LoopAction::Send(relay_on_event(1)))
    );
    assert_eq!(gateway.phase(), LoopPhase::DispatchingCommands);
    assert_eq!(
        gateway.step(LoopEvent::Sent { ok: true }),
        LoopOutput {
            report: Report::Sent(relay_on_event(1)),
            action: LoopAction::Send(relay_on_event(2)),
        }
    );
    assert_eq!(
        gateway.step(LoopEvent::Sent { ok: false }),
        LoopOutput {
            report: Report::SendFailed(relay_on_event(2)),
            action: LoopAction::Send(relay_on_event(3)),
        }
    );
    assert_eq!(
        gateway.step(LoopEvent::Sent { ok: true }),
        LoopOutput {
            report: Report::Sent(relay_on_event(3)),
            action: LoopAction::ReadDiscovery,
        }
    );
    assert_eq!(gateway.phase(), LoopPhase::ServicingDiscovery);
}

#[test]
fn command_without_sub_commands_sends_nothing() {
    let mut gateway = loop_taking_command();
    assert_eq!(
        gateway.step(LoopEvent::Command(Some(GatewayCommand { device_commands: vec![] }))),
        quiet(LoopAction::ReadDiscovery)
    );
}

#[test]
fn only_the_latest_of_two_commands_is_dispatched() {
    let mut queue = CommandQueue::new();
    queue.push(GatewayCommand { device_commands: vec![relay_on(1), relay_on(2)] });
    queue.push(GatewayCommand {
        device_commands: vec![DeviceCommand {
            peripheral_address: 9,
            peripheral_index: 0,
            payload: CommandPayload::BcmSetSingle { brightness: 200 },
        }],
    });
    let mut gateway = loop_taking_command();
    assert_eq!(
        gateway.step(LoopEvent::Command(queue.drain_latest())),
        quiet(LoopAction::Send(BusEvent::BcmChangeBrightness {
            bcm_address: 9,
            transmitter_address: PROGRAMMER,
            index: 0,
            value: BcmValue::Single(200),
        }))
    );
    assert_eq!(gateway.step(LoopEvent::Sent { ok: true }).action, LoopAction::ReadDiscovery);
    assert_eq!(gateway.step(LoopEvent::Discovery { requested: false }).action, LoopAction::Rest);
    assert_eq!(gateway.step(LoopEvent::Wake).action, LoopAction::Tick);
    assert_eq!(gateway.step(LoopEvent::Ticked { ok: true }).action, LoopAction::TakeCommand);
    assert_eq!(
        gateway.step(LoopEvent::Command(queue.drain_latest())),
        quiet(LoopAction::ReadDiscovery)
    );
}

#[test]
fn discovery_sends_one_event_for_each_device_and_clears_the_flag() {
    let mut flag = DiscoveryFlag::new();
    flag.request();
    let mut gateway = loop_reading_discovery();
    assert_eq!(
        gateway.step(LoopEvent::Discovery { requested: flag.is_requested() }),
        quiet(LoopAction::Enumerate)
    );
    assert_eq!(gateway.phase(), LoopPhase::ServicingDiscovery);
    assert_eq!(
        gateway.step(LoopEvent::Devices(vec![0x0100, 0x0200, 0x0300])),
        quiet(LoopAction::Send(discover_event(0x0100)))
    );
    assert_eq!(
        gateway.step(LoopEvent::Sent { ok: false }),
        LoopOutput {
            report: Report::SendFailed(discover_event(0x0100)),
            action: LoopAction::Send(discover_event(0x0200)),
        }
    );
    assert_eq!(
        gateway.step(LoopEvent::Sent { ok: false }),
        LoopOutput {
            report: Report::SendFailed(discover_event(0x0200)),
            action: LoopAction::Send(discover_event(0x0300)),
        }
    );
    let last = gateway.step(LoopEvent::Sent { ok: false });
    assert_eq!(
        last,
        LoopOutput {
            report: Report::SendFailed(discover_event(0x0300)),
            action: LoopAction::ClearDiscovery,
        }
    );
    if last.action == LoopAction::ClearDiscovery {
        flag.clear();
    }
    assert!(!flag.is_requested());
    assert_eq!(gateway.phase(), LoopPhase::Idle);
    assert_eq!(gateway.step(LoopEvent::Wake), quiet(LoopAction::Tick));
}

#[test]
fn discovery_without_devices_clears_the_flag() {
    let mut gateway = loop_reading_discovery();
    assert_eq!(gateway.step(LoopEvent::Discovery { requested: true }), quiet(LoopAction::Enumerate));
    assert_eq!(gateway.step(LoopEvent::Devices(vec![])), quiet(LoopAction::ClearDiscovery));
    assert_eq!(gateway.phase(), LoopPhase::Idle);
}

#[test]
fn discovery_follows_a_command_in_the_same_iteration() {
    let mut gateway = loop_taking_command();
    let command = GatewayCommand { device_commands: vec![relay_on(5)] };
    assert_eq!(
        gateway.step(LoopEvent::Command(Some(command))).action,
        LoopAction::Send(relay_on_event(5))
    );
    assert_eq!(gateway.step(LoopEvent::Sent { ok: true }).action, LoopAction::ReadDiscovery);
    assert_eq!(gateway.step(LoopEvent::Discovery { requested: true }).action, LoopAction::Enumerate);
    assert_eq!(
        gateway.step(LoopEvent::Devices(vec![8])).action,
        LoopAction::Send(discover_event(8))
    );
    assert_eq!(gateway.phase(), LoopPhase::ServicingDiscovery);
    assert_eq!(gateway.step(LoopEvent::Sent { ok: true }).action, LoopAction::ClearDiscovery);
}

#[test]
fn event_that_answers_nothing_is_ignored() {
    let mut gateway = GatewayLoop::new(PROGRAMMER);
    assert_eq!(gateway.step(LoopEvent::Sent { ok: true }), quiet(LoopAction::Unexpected));
    assert_eq!(gateway.phase(), LoopPhase::Idle);
    assert_eq!(gateway.step(LoopEvent::Wake), quiet(LoopAction::Tick));
    assert_eq!(gateway.step(LoopEvent::Wake), quiet(LoopAction::Unexpected));
    assert_eq!(gateway.step(LoopEvent::Devices(vec![1])), quiet(LoopAction::Unexpected));
    assert_eq!(gateway.phase(), LoopPhase::ServicingBus);
    assert_eq!(gateway.step(LoopEvent::Ticked { ok: true }), quiet(LoopAction::TakeCommand));
    let command = GatewayCommand { device_commands: vec![relay_on(1), relay_on(2)] };
    assert_eq!(
        gateway.step(LoopEvent::Command(Some(command))),
        quiet(LoopAction::Send(relay_on_event(1)))
    );
    assert_eq!(gateway.step(LoopEvent::Command(None)), quiet(LoopAction::Unexpected));
    assert_eq!(
        gateway.step(LoopEvent::Discovery { requested: true }),
        quiet(LoopAction::Unexpected)
    );
    assert_eq!(
        gateway.step(LoopEvent::Sent { ok: true }),
        LoopOutput {
            report: Report::Sent(relay_on_event(1)),
            action: LoopAction::Send(relay_on_event(2)),
        }
    );
}
