//! The rules between the two sides: which bus event a command becomes, and
//! which state a bus event reports. Nothing here keeps state or does I/O.

use crate::bus::{BcmValue, BusEvent, RelayValue};
use crate::command::{CommandPayload, DeviceCommand, GatewayCommand};
use crate::state::{DeviceState, PeripheralState};
use vstd::prelude::*;

verus! {

/// The bus event that carries out `command` when the gateway sends from
/// `programmer_address`: a relay event for the relay commands, a brightness
/// event for the others, addressed to the command's peripheral.
pub open spec fn command_event_spec(command: DeviceCommand, programmer_address: u16) -> BusEvent {
    let relay = |value: RelayValue|
        BusEvent::RelaySetValue {
            relay_address: command.peripheral_address,
            transmitter_address: programmer_address,
            index: command.peripheral_index,
            value,
        };
    let bcm = |value: BcmValue|
        BusEvent::BcmChangeBrightness {
            bcm_address: command.peripheral_address,
            transmitter_address: programmer_address,
            index: command.peripheral_index,
            value,
        };
    match command.payload {
        CommandPayload::RelayTurnOnSingle {  } => relay(RelayValue::Single(true)),
        CommandPayload::RelayTurnOffSingle {  } => relay(RelayValue::Single(false)),
        CommandPayload::BcmTurnOn {  } => bcm(BcmValue::Binary(true)),
        CommandPayload::BcmTurnOff {  } => bcm(BcmValue::Binary(false)),
        CommandPayload::BcmSetSingle { brightness } => bcm(BcmValue::Single(brightness)),
        CommandPayload::BcmSetRgb { red, green, blue, brightness } => bcm(
            BcmValue::RgbB(red, green, blue, brightness),
        ),
        CommandPayload::BcmSetRgbw { red, green, blue, white, brightness } => bcm(
            BcmValue::RgbwB(red, green, blue, white, brightness),
        ),
    }
}

/// The events of a whole command, one for each sub-command, in their order.
pub open spec fn command_events_spec(
    commands: Seq<DeviceCommand>,
    programmer_address: u16,
) -> Seq<BusEvent> {
    Seq::new(commands.len(), |i: int| command_event_spec(commands[i], programmer_address))
}

/// The discovery events for the devices found on the bus: one for each
/// bootloader address, in their order, with the gateway as the sender.
pub open spec fn discovery_events_spec(
    bootloader_addresses: Seq<u16>,
    programmer_address: u16,
) -> Seq<BusEvent> {
    Seq::new(
        bootloader_addresses.len(),
        |i: int|
            BusEvent::GatewayDiscover {
                device_address: bootloader_addresses[i],
                gateway_address: programmer_address,
            },
    )
}

/// The state that a bus event reports, if it reports one. The peripheral is
/// that of the node that sent the event. A discovery event reports nothing,
/// and neither does a brightness event whose value has no brightness level.
pub open spec fn telemetry_state_spec(event: BusEvent) -> Option<DeviceState> {
    match event {
        BusEvent::RelaySetValue { transmitter_address, index, value, .. } => Some(
            DeviceState {
                peripheral_address: transmitter_address,
                peripheral_index: index,
                peripheral_state: PeripheralState::of_relay(value),
            },
        ),
        BusEvent::BcmChangeBrightness { transmitter_address, index, value, .. } => {
            match PeripheralState::of_bcm(value) {
                Some(peripheral_state) => Some(
                    DeviceState {
                        peripheral_address: transmitter_address,
                        peripheral_index: index,
                        peripheral_state,
                    },
                ),
                None => None,
            }
        },
        BusEvent::GatewayDiscover { .. } => None,
    }
}

/// Builds the bus event for one sub-command.
pub fn command_event(command: &DeviceCommand, programmer_address: u16) -> (event: BusEvent)
    ensures
        event == command_event_spec(*command, programmer_address),
{
    let relay_address = command.peripheral_address;
    let index = command.peripheral_index;
    let transmitter_address = programmer_address;
    match command.payload {
        CommandPayload::RelayTurnOnSingle {  } => BusEvent::RelaySetValue {
            relay_address,
            transmitter_address,
            index,
            value: RelayValue::Single(true),
        },
        CommandPayload::RelayTurnOffSingle {  } => BusEvent::RelaySetValue {
            relay_address,
            transmitter_address,
            index,
            value: RelayValue::Single(false),
        },
        CommandPayload::BcmTurnOn {  } => BusEvent::BcmChangeBrightness {
            bcm_address: relay_address,
            transmitter_address,
            index,
            value: BcmValue::Binary(true),
        },
        CommandPayload::BcmTurnOff {  } => BusEvent::BcmChangeBrightness {
            bcm_address: relay_address,
            transmitter_address,
            index,
            value: BcmValue::Binary(false),
        },
        CommandPayload::BcmSetSingle { brightness } => BusEvent::BcmChangeBrightness {
            bcm_address: relay_address,
            transmitter_address,
            index,
            value: BcmValue::Single(brightness),
        },
        CommandPayload::BcmSetRgb { red, green, blue, brightness } => {
            BusEvent::BcmChangeBrightness {
                bcm_address: relay_address,
                transmitter_address,
                index,
                value: BcmValue::RgbB(red, green, blue, brightness),
            }
        },
        CommandPayload::BcmSetRgbw { red, green, blue, white, brightness } => {
            BusEvent::BcmChangeBrightness {
                bcm_address: relay_address,
                transmitter_address,
                index,
                value: BcmValue::RgbwB(red, green, blue, white, brightness),
            }
        },
    }
}

/// Builds the bus events for a whole command. Never fails: every payload has
/// its event.
pub fn command_events(command: &GatewayCommand, programmer_address: u16) -> (events: Vec<BusEvent>)
    ensures
        events@ == command_events_spec(command@, programmer_address),
{
    let mut events: Vec<BusEvent> = Vec::new();
    let mut i: usize = 0;
    while i < command.device_commands.len()
        invariant
            i <= command.device_commands.len(),
            events@ == command_events_spec(command@.take(i as int), programmer_address),
        decreases command.device_commands.len() - i,
    {
        events.push(command_event(&command.device_commands[i], programmer_address));
        i += 1;
    }
    assert(command@.take(i as int) == command@);
    events
}

/// Builds the discovery events for the devices with the given bootloader
/// addresses.
pub fn discovery_events(bootloader_addresses: &Vec<u16>, programmer_address: u16) -> (events: Vec<
    BusEvent,
>)
    ensures
        events@ == discovery_events_spec(bootloader_addresses@, programmer_address),
{
    let mut events: Vec<BusEvent> = Vec::new();
    let mut i: usize = 0;
    while i < bootloader_addresses.len()
        invariant
            i <= bootloader_addresses.len(),
            events@ == discovery_events_spec(
                bootloader_addresses@.take(i as int),
                programmer_address,
            ),
        decreases bootloader_addresses.len() - i,
    {
        events.push(
            BusEvent::GatewayDiscover {
                device_address: bootloader_addresses[i],
                gateway_address: programmer_address,
            },
        );
        i += 1;
    }
    assert(bootloader_addresses@.take(i as int) == bootloader_addresses@);
    events
}

/// Reads the state that a bus event reports.
pub fn telemetry_state(event: &BusEvent) -> (state: Option<DeviceState>)
    ensures
        state == telemetry_state_spec(*event),
{
    match *event {
        BusEvent::RelaySetValue { transmitter_address, index, value, .. } => {
            match PeripheralState::try_from(value) {
                Ok(peripheral_state) => Some(
                    DeviceState {
                        peripheral_address: transmitter_address,
                        peripheral_index: index,
                        peripheral_state,
                    },
                ),
                Err(_) => None,
            }
        },
        BusEvent::BcmChangeBrightness { transmitter_address, index, value, .. } => {
            match PeripheralState::try_from(value) {
                Ok(peripheral_state) => Some(
                    DeviceState {
                        peripheral_address: transmitter_address,
                        peripheral_index: index,
                        peripheral_state,
                    },
                ),
                Err(_) => None,
            }
        },
        BusEvent::GatewayDiscover { .. } => None,
    }
}

/// Whether two events are of one kind and carry the same value, whatever
/// their addresses.
pub open spec fn same_value(a: BusEvent, b: BusEvent) -> bool {
    match (a, b) {
        (
            BusEvent::RelaySetValue { value: x, .. },
            BusEvent::RelaySetValue { value: y, .. },
        ) => x == y,
        (
            BusEvent::BcmChangeBrightness { value: x, .. },
            BusEvent::BcmChangeBrightness { value: y, .. },
        ) => x == y,
        (BusEvent::GatewayDiscover { .. }, BusEvent::GatewayDiscover { .. }) => true,
        _ => false,
    }
}

/// The peripheral state that an event reports, without its address.
pub open spec fn reported(event: BusEvent) -> Option<PeripheralState> {
    match telemetry_state_spec(event) {
        Some(state) => Some(state.peripheral_state),
        None => None,
    }
}

/// What a command asks for is what its peripheral then reports: any event of
/// the kind that `command` becomes, carrying the same value, reports the
/// commanded levels, with `on` derived from them. An on/off brightness command
/// carries no level and reports nothing.
pub proof fn lemma_command_round_trip(command: DeviceCommand, programmer_address: u16, echo: BusEvent)
    requires
        same_value(echo, command_event_spec(command, programmer_address)),
    ensures
        match command.payload {
            CommandPayload::RelayTurnOnSingle {  } => reported(echo) == Some(
                PeripheralState::RelaySingle { on: true },
            ),
            CommandPayload::RelayTurnOffSingle {  } => reported(echo) == Some(
                PeripheralState::RelaySingle { on: false },
            ),
            CommandPayload::BcmTurnOn {  } => reported(echo) is None,
            CommandPayload::BcmTurnOff {  } => reported(echo) is None,
            CommandPayload::BcmSetSingle { brightness } => reported(echo) == Some(
                PeripheralState::BcmSingle { on: brightness != 0, brightness },
            ),
            CommandPayload::BcmSetRgb { red, green, blue, brightness } => reported(echo) == Some(
                PeripheralState::BcmRgbB {
                    on: brightness != 0 && (red != 0 || green != 0 || blue != 0),
                    red,
                    green,
                    blue,
                    brightness,
                },
            ),
            CommandPayload::BcmSetRgbw { red, green, blue, white, brightness } => reported(echo)
                == Some(
                PeripheralState::BcmRgbwB {
                    on: brightness != 0 && (red != 0 || green != 0 || blue != 0 || white != 0),
                    red,
                    green,
                    blue,
                    white,
                    brightness,
                },
            ),
        },
{
}

} // verus!
