//! Events of the device bus, as plain values.

use vstd::prelude::*;

verus! {

/// Which channel of a double exclusive relay conducts.
#[derive(Clone, Copy, Debug, PartialEq, Eq, Structural)]
pub enum RelayDoubleExclusiveValue {
    FirstChannelOn,
    SecondChannelOn,
    NoChannelOn,
}

/// Value carried by a relay event.
#[derive(Clone, Copy, Debug, PartialEq, Eq, Structural)]
pub enum RelayValue {
    Single(bool),
    DoubleExclusive(RelayDoubleExclusiveValue),
}

/// Value carried by a brightness event. Every channel is an 8-bit intensity.
#[derive(Clone, Copy, Debug, PartialEq, Eq, Structural)]
pub enum BcmValue {
    /// On or off, without a level.
    Binary(bool),
    /// Brightness of a single channel.
    Single(u8),
    /// Red, green, blue.
    Rgb(u8, u8, u8),
    /// Red, green, blue, brightness.
    RgbB(u8, u8, u8, u8),
    /// Red, green, blue, white.
    Rgbw(u8, u8, u8, u8),
    /// Red, green, blue, white, brightness.
    RgbwB(u8, u8, u8, u8, u8),
}

impl BcmValue {
    /// The brightness that the value carries, if it carries one.
    pub open spec fn brightness(self) -> Option<u8> {
        match self {
            BcmValue::Single(brightness) => Some(brightness),
            BcmValue::RgbB(_, _, _, brightness) => Some(brightness),
            BcmValue::RgbwB(_, _, _, _, brightness) => Some(brightness),
            _ => None,
        }
    }

    /// Whether the value has color channels beside its brightness.
    pub open spec fn is_colored(self) -> bool {
        self is RgbB || self is RgbwB
    }

    /// Whether at least one color channel beside the brightness is not zero.
    pub open spec fn has_color(self) -> bool {
        match self {
            BcmValue::RgbB(red, green, blue, _) => red != 0 || green != 0 || blue != 0,
            BcmValue::RgbwB(red, green, blue, white, _) => red != 0 || green != 0 || blue != 0
                || white != 0,
            _ => false,
        }
    }
}

/// One event on the bus. Nodes are addressed by 16 bits, their peripherals by
/// an 8-bit index.
#[allow(inconsistent_fields)]
#[derive(Clone, Copy, Debug, PartialEq, Eq, Structural)]
pub enum BusEvent {
    RelaySetValue { relay_address: u16, transmitter_address: u16, index: u8, value: RelayValue },
    BcmChangeBrightness { bcm_address: u16, transmitter_address: u16, index: u8, value: BcmValue },
    GatewayDiscover { device_address: u16, gateway_address: u16 },
}

} // verus!
