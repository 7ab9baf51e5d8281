use ross_gateway::bus::{BcmValue, BusEvent, RelayDoubleExclusiveValue, RelayValue};
use ross_gateway::command::{CommandPayload, DeviceCommand, GatewayCommand};
use ross_gateway::engine::{command_event, command_events, discovery_events, telemetry_state};
use ross_gateway::state::{DeviceState, PeripheralState};

fn bcm_state(value: BcmValue) -> Result<PeripheralState, ()> {
    PeripheralState::try_from(value)
}

fn command(address: u16, index: u8, payload: CommandPayload) -> DeviceCommand {
    DeviceCommand { peripheral_address: address, peripheral_index: index, payload }
}

#[test]
fn zero_brightness_is_off_whatever_the_colors() {
    assert_eq!(
        bcm_state(BcmValue::Single(0)),
        Ok(PeripheralState::BcmSingle { on: false, brightness: 0 })
    );
    assert_eq!(
        bcm_state(BcmValue::RgbB(255, 1, 0, 0)),
        Ok(PeripheralState::BcmRgbB { on: false, red: 255, green: 1, blue: 0, brightness: 0 })
    );
    assert_eq!(
        bcm_state(BcmValue::RgbwB(0, 0, 0, 255, 0)),
        Ok(PeripheralState::BcmRgbwB {
            on: false,
            red: 0,
            green: 0,
            blue: 0,
            white: 255,
            brightness: 0
        })
    );
}

#[test]
fn colors_at_zero_are_off_whatever_the_brightness() {
    assert_eq!(
        bcm_state(BcmValue::RgbB(0, 0, 0, 255)),
        Ok(PeripheralState::BcmRgbB { on: false, red: 0, green: 0, blue: 0, brightness: 255 })
    );
    assert_eq!(
        bcm_state(BcmValue::RgbwB(0, 0, 0, 0, 1)),
        Ok(PeripheralState::BcmRgbwB {
            on: false,
            red: 0,
            green: 0,
            blue: 0,
            white: 0,
            brightness: 1
        })
    );
}

#[test]
fn one_color_and_a_brightness_are_on() {
    assert_eq!(
        bcm_state(BcmValue::RgbB(0, 0, 1, 1)),
        Ok(PeripheralState::BcmRgbB { on: true, red: 0, green: 0, blue: 1, brightness: 1 })
    );
    assert_eq!(
        bcm_state(BcmValue::RgbB(0, 7, 0, 200)),
        Ok(PeripheralState::BcmRgbB { on: true, red: 0, green: 7, blue: 0, brightness: 200 })
    );
    assert_eq!(
        bcm_state(BcmValue::RgbB(9, 0, 0, 255)),
        Ok(PeripheralState::BcmRgbB { on: true, red: 9, green: 0, blue: 0, brightness: 255 })
    );
    assert_eq!(
        bcm_state(BcmValue::RgbwB(0, 0, 0, 3, 10)),
        Ok(PeripheralState::BcmRgbwB {
            on: true,
            red: 0,
            green: 0,
            blue: 0,
            white: 3,
            brightness: 10
        })
    );
}

#[test]
fn single_brightness_is_on_when_not_zero() {
    assert_eq!(
        bcm_state(BcmValue::Single(1)),
        Ok(PeripheralState::BcmSingle { on: true, brightness: 1 })
    );
    assert_eq!(
        bcm_state(BcmValue::Single(255)),
        Ok(PeripheralState::BcmSingle { on: true, brightness: 255 })
    );
}

#[test]
fn values_without_brightness_have_no_state() {
    assert_eq!(bcm_state(BcmValue::Binary(true)), Err(()));
    assert_eq!(bcm_state(BcmValue::Binary(false)), Err(()));
    assert_eq!(bcm_state(BcmValue::Rgb(1, 2, 3)), Err(()));
    assert_eq!(bcm_state(BcmValue::Rgbw(1, 2, 3, 4)), Err(()));
}

#[test]
fn relay_values_always_have_a_state() {
    assert_eq!(
        PeripheralState::try_from(RelayValue::Single(true)),
        Ok(PeripheralState::RelaySingle { on: true })
    );
    assert_eq!(
        PeripheralState::try_from(RelayValue::Single(false)),
        Ok(PeripheralState::RelaySingle { on: false })
    );
    assert_eq!(
        PeripheralState::try_from(RelayValue::DoubleExclusive(
            RelayDoubleExclusiveValue::FirstChannelOn
        )),
        Ok(PeripheralState::RelayDoubleExclusive { first: true, second: false })
    );
    assert_eq!(
        PeripheralState::try_from(RelayValue::DoubleExclusive(
            RelayDoubleExclusiveValue::SecondChannelOn
        )),
        Ok(PeripheralState::RelayDoubleExclusive { first: false, second: true })
    );
    assert_eq!(
        PeripheralState::try_from(RelayValue::DoubleExclusive(
            RelayDoubleExclusiveValue::NoChannelOn
        )),
        Ok(PeripheralState::RelayDoubleExclusive { first: false, second: false })
    );
}

#[test]
fn every_payload_has_its_event() {
    let programmer = 0x0a0b;
    let relay = |value| BusEvent::RelaySetValue {
        relay_address: 0x1234,
        transmitter_address: programmer,
        index: 5,
        value,
    };
    let bcm = |value| BusEvent::BcmChangeBrightness {
        bcm_address: 0x1234,
        transmitter_address: programmer,
        index: 5,
        value,
    };
    let event = |payload| command_event(&command(0x1234, 5, payload), programmer);
    assert_eq!(event(CommandPayload::RelayTurnOnSingle {}), relay(RelayValue::Single(true)));
    assert_eq!(event(CommandPayload::RelayTurnOffSingle {}), relay(RelayValue::Single(false)));
    assert_eq!(event(CommandPayload::BcmTurnOn {}), bcm(BcmValue::Binary(true)));
    assert_eq!(event(CommandPayload::BcmTurnOff {}), bcm(BcmValue::Binary(false)));
    assert_eq!(event(CommandPayload::BcmSetSingle { brightness: 77 }), bcm(BcmValue::Single(77)));
    assert_eq!(
        event(CommandPayload::BcmSetRgb { red: 1, green: 2, blue: 3, brightness: 4 }),
        bcm(BcmValue::RgbB(1, 2, 3, 4))
    );
    assert_eq!(
        event(CommandPayload::BcmSetRgbw { red: 1, green: 2, blue: 3, white: 4, brightness: 5 }),
        bcm(BcmValue::RgbwB(1, 2, 3, 4, 5))
    );
}

#[test]
fn command_events_keep_the_order_of_the_sub_commands() {
    let gateway_command = GatewayCommand {
        device_commands: vec![
            command(1, 0, CommandPayload::RelayTurnOnSingle {}),
            command(2, 1, CommandPayload::BcmSetSingle { brightness: 9 }),
            command(1, 0, CommandPayload::RelayTurnOffSingle {}),
        ],
    };
    assert_eq!(
        command_events(&gateway_command, 0xffff),
        vec![
            BusEvent::RelaySetValue {
                relay_address: 1,
                transmitter_address: 0xffff,
                index: 0,
                value: RelayValue::Single(true)
            },
            BusEvent::BcmChangeBrightness {
                bcm_address: 2,
                transmitter_address: 0xffff,
                index: 1,
                value: BcmValue::Single(9)
            },
            BusEvent::RelaySetValue {
                relay_address: 1,
                transmitter_address: 0xffff,
                index: 0,
                value: RelayValue::Single(false)
            },
        ]
    );
    assert_eq!(command_events(&GatewayCommand { device_commands: vec![] }, 3), vec![]);
}

#[test]
fn discovery_events_address_each_device() {
    assert_eq!(
        discovery_events(&vec![0x0010, 0x0020, 0xfffe], 0x0001),
        vec![
            BusEvent::GatewayDiscover { device_address: 0x0010, gateway_address: 0x0001 },
            BusEvent::GatewayDiscover { device_address: 0x0020, gateway_address: 0x0001 },
            BusEvent::GatewayDiscover { device_address: 0xfffe, gateway_address: 0x0001 },
        ]
    );
    assert_eq!(discovery_events(&vec![], 1), vec![]);
}

#[test]
fn telemetry_is_reported_for_the_sender() {
    assert_eq!(
        telemetry_state(&BusEvent::RelaySetValue {
            relay_address: 1,
            transmitter_address: 0x0203,
            index: 4,
            value: RelayValue::DoubleExclusive(RelayDoubleExclusiveValue::FirstChannelOn),
        }),
        Some(DeviceState {
            peripheral_address: 0x0203,
            peripheral_index: 4,
            peripheral_state: PeripheralState::RelayDoubleExclusive { first: true, second: false },
        })
    );
    assert_eq!(
        telemetry_state(&BusEvent::BcmChangeBrightness {
            bcm_address: 1,
            transmitter_address: 0x0203,
            index: 4,
            value: BcmValue::RgbB(0, 0, 0, 50),
        }),
        Some(DeviceState {
            peripheral_address: 0x0203,
            peripheral_index: 4,
            peripheral_state: PeripheralState::BcmRgbB {
                on: false,
                red: 0,
                green: 0,
                blue: 0,
                brightness: 50
            },
        })
    );
}

#[test]
fn telemetry_without_a_state_is_dropped() {
    assert_eq!(
        telemetry_state(&BusEvent::BcmChangeBrightness {
            bcm_address: 1,
            transmitter_address: 2,
            index: 3,
            value: BcmValue::Binary(true),
        }),
        None
    );
    assert_eq!(
        telemetry_state(&BusEvent::GatewayDiscover { device_address: 1, gateway_address: 2 }),
        None
    );
}

#[test]
fn set_single_round_trip() {
    let sent = command_event(&command(0x0102, 3, CommandPayload::BcmSetSingle { brightness: 200 }), 9);
    let echo = match sent {
        BusEvent::BcmChangeBrightness { index, value, .. } => BusEvent::BcmChangeBrightness {
            bcm_address: 9,
            transmitter_address: 0x0102,
            index,
            value,
        },
        other => panic!("a brightness event was expected, not {:?}", other),
    };
    assert_eq!(
        telemetry_state(&echo),
        Some(DeviceState {
            peripheral_address: 0x0102,
            peripheral_index: 3,
            peripheral_state: PeripheralState::BcmSingle { on: true, brightness: 200 },
        })
    );
}

#[test]
fn rgbw_round_trip_with_dark_colors() {
    let sent = command_event(
        &command(
            7,
            0,
            CommandPayload::BcmSetRgbw { red: 0, green: 0, blue: 0, white: 0, brightness: 90 },
        ),
        9,
    );
    assert_eq!(
        telemetry_state(&sent).map(|state| state.peripheral_state),
        Some(PeripheralState::BcmRgbwB {
            on: false,
            red: 0,
            green: 0,
            blue: 0,
            white: 0,
            brightness: 90
        })
    );
}

#[test]
fn on_off_commands_report_nothing() {
    let sent = command_event(&command(7, 0, CommandPayload::BcmTurnOn {}), 9);
    assert_eq!(telemetry_state(&sent), None);
    let sent = command_event(&command(7, 0, CommandPayload::RelayTurnOffSingle {}), 9);
    assert_eq!(
        telemetry_state(&sent).map(|state| state.peripheral_state),
        Some(PeripheralState::RelaySingle { on: false })
    );
}
