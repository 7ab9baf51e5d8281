//! Commands that the cloud sends to the gateway.

use vstd::prelude::*;

verus! {

/// What one peripheral is asked to do.
#[derive(Clone, Copy, Debug, PartialEq, Eq, Structural)]
pub enum CommandPayload {
    RelayTurnOnSingle {  },
    RelayTurnOffSingle {  },
    BcmTurnOn {  },
    BcmTurnOff {  },
    BcmSetSingle { brightness: u8 },
    BcmSetRgb { red: u8, green: u8, blue: u8, brightness: u8 },
    BcmSetRgbw { red: u8, green: u8, blue: u8, white: u8, brightness: u8 },
}

/// One sub-command: a payload for the peripheral `peripheral_index` of the
/// node `peripheral_address`.
#[derive(Clone, Copy, Debug, PartialEq, Eq, Structural)]
pub struct DeviceCommand {
    pub peripheral_address: u16,
    pub peripheral_index: u8,
    pub payload: CommandPayload,
}

/// The sub-commands of one inbound cloud message, in the order in which they
/// are applied.
#[derive(Clone, Debug, PartialEq, Eq)]
pub struct GatewayCommand {
    pub device_commands: Vec<DeviceCommand>,
}

impl View for GatewayCommand {
    type V = Seq<DeviceCommand>;

    open spec fn view(&self) -> Seq<DeviceCommand> {
        self.device_commands@
    }
}

} // verus!
