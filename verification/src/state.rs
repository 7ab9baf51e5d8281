//! State snapshots that the gateway publishes to the cloud.

use crate::bus::{BcmValue, RelayDoubleExclusiveValue, RelayValue};
use vstd::prelude::*;
use vstd::std_specs::convert::TryFromSpecImpl;

verus! {

/// State of one peripheral, as the bus last reported it.
///
/// The bus does not transmit `on`: it is derived from the levels. A single
/// channel is on when its brightness is not zero; a colored one is on when its
/// brightness is not zero and at least one of its color channels is not zero.
#[derive(Clone, Copy, Debug, PartialEq, Eq, Structural)]
pub enum PeripheralState {
    RelaySingle { on: bool },
    RelayDoubleExclusive { first: bool, second: bool },
    BcmSingle { on: bool, brightness: u8 },
    BcmRgbB { on: bool, red: u8, green: u8, blue: u8, brightness: u8 },
    BcmRgbwB { on: bool, red: u8, green: u8, blue: u8, white: u8, brightness: u8 },
}

/// State of the peripheral `peripheral_index` of the node `peripheral_address`.
#[derive(Clone, Copy, Debug, PartialEq, Eq, Structural)]
pub struct DeviceState {
    pub peripheral_address: u16,
    pub peripheral_index: u8,
    pub peripheral_state: PeripheralState,
}

/// A snapshot: the states that the gateway has observed and not yet published.
#[derive(Clone, Debug, PartialEq, Eq)]
pub struct GatewayState {
    pub device_states: Vec<DeviceState>,
}

impl View for GatewayState {
    type V = Seq<DeviceState>;

    open spec fn view(&self) -> Seq<DeviceState> {
        self.device_states@
    }
}

impl PeripheralState {
    /// The `on` flag of a brightness state; `false` for a relay state.
    pub open spec fn bcm_on(self) -> bool {
        match self {
            PeripheralState::BcmSingle { on, .. } => on,
            PeripheralState::BcmRgbB { on, .. } => on,
            PeripheralState::BcmRgbwB { on, .. } => on,
            _ => false,
        }
    }

    /// The state that a relay value stands for.
    pub open spec fn of_relay(value: RelayValue) -> PeripheralState {
        match value {
            RelayValue::Single(on) => PeripheralState::RelaySingle { on },
            RelayValue::DoubleExclusive(channel) => PeripheralState::RelayDoubleExclusive {
                first: channel is FirstChannelOn,
                second: channel is SecondChannelOn,
            },
        }
    }

    /// The state that a brightness value stands for, if it has one: a value
    /// without a brightness level has none.
    pub open spec fn of_bcm(value: BcmValue) -> Option<PeripheralState> {
        match value {
            BcmValue::Single(brightness) => Some(
                PeripheralState::BcmSingle { on: brightness != 0, brightness },
            ),
            BcmValue::RgbB(red, green, blue, brightness) => Some(
                PeripheralState::BcmRgbB {
                    on: brightness != 0 && value.has_color(),
                    red,
                    green,
                    blue,
                    brightness,
                },
            ),
            BcmValue::RgbwB(red, green, blue, white, brightness) => Some(
                PeripheralState::BcmRgbwB {
                    on: brightness != 0 && value.has_color(),
                    red,
                    green,
                    blue,
                    white,
                    brightness,
                },
            ),
            _ => None,
        }
    }
}

impl TryFromSpecImpl<RelayValue> for PeripheralState {
    open spec fn obeys_try_from_spec() -> bool {
        true
    }

    open spec fn try_from_spec(value: RelayValue) -> Result<Self, ()> {
        Ok(PeripheralState::of_relay(value))
    }
}

impl TryFrom<RelayValue> for PeripheralState {
    type Error = ();

    /// Every relay value has a state, so this never fails.
    fn try_from(value: RelayValue) -> (result: Result<Self, ()>)
        ensures
            result == Ok::<PeripheralState, ()>(PeripheralState::of_relay(value)),
    {
        match value {
            RelayValue::Single(on) => Ok(PeripheralState::RelaySingle { on }),
            RelayValue::DoubleExclusive(channel) => match channel {
                RelayDoubleExclusiveValue::FirstChannelOn => Ok(
                    PeripheralState::RelayDoubleExclusive { first: true, second: false },
                ),
                RelayDoubleExclusiveValue::SecondChannelOn => Ok(
                    PeripheralState::RelayDoubleExclusive { first: false, second: true },
                ),
                RelayDoubleExclusiveValue::NoChannelOn => Ok(
                    PeripheralState::RelayDoubleExclusive { first: false, second: false },
                ),
            },
        }
    }
}

impl TryFromSpecImpl<BcmValue> for PeripheralState {
    open spec fn obeys_try_from_spec() -> bool {
        true
    }

    open spec fn try_from_spec(value: BcmValue) -> Result<Self, ()> {
        match PeripheralState::of_bcm(value) {
            Some(state) => Ok(state),
            None => Err(()),
        }
    }
}

impl TryFrom<BcmValue> for PeripheralState {
    type Error = ();

    /// Fails exactly on the values that carry no brightness level. A zero
    /// brightness is always off; a colored value with all color channels at
    /// zero is off whatever its brightness.
    fn try_from(value: BcmValue) -> (result: Result<Self, ()>)
        ensures
            result is Ok <==> value.brightness() is Some,
            result matches Ok(state) ==> PeripheralState::of_bcm(value) == Some(state),
            value.brightness() == Some(0u8) ==> result is Ok && !result->Ok_0.bcm_on(),
            value.is_colored() && value.brightness() != Some(0u8) && !value.has_color()
                ==> result is Ok && !result->Ok_0.bcm_on(),
            value.is_colored() && value.brightness() != Some(0u8) && value.has_color()
                ==> result is Ok && result->Ok_0.bcm_on(),
    {
        match value {
            BcmValue::Single(brightness) => Ok(
                PeripheralState::BcmSingle { on: brightness != 0, brightness },
            ),
            BcmValue::RgbB(red, green, blue, brightness) => Ok(
                PeripheralState::BcmRgbB {
                    on: (red != 0 || green != 0 || blue != 0) && brightness != 0,
                    red,
                    green,
                    blue,
                    brightness,
                },
            ),
            BcmValue::RgbwB(red, green, blue, white, brightness) => Ok(
                PeripheralState::BcmRgbwB {
                    on: (red != 0 || green != 0 || blue != 0 || white != 0) && brightness != 0,
                    red,
                    green,
                    blue,
                    white,
                    brightness,
                },
            ),
            _ => Err(()),
        }
    }
}

} // verus!
