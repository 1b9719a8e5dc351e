//! Commands to devices, and what devices are written.

use vstd::prelude::*;

verus! {

/// The speed of one vibrator.
#[derive(Debug, Clone, Copy, PartialEq, Eq, Structural)]
pub struct VibrateSubcommand {
    /// Which vibrator, counted from 0.
    pub index: u32,
    /// How fast, in steps of that vibrator.
    pub speed: u32,
}

impl VibrateSubcommand {
    /// Speed `speed` for vibrator `index`.
    pub fn new(index: u32, speed: u32) -> (subcommand: Self)
        ensures
            subcommand.index == index,
            subcommand.speed == speed,
    {
        VibrateSubcommand { index, speed }
    }
}

/// A command to set the speeds of some vibrators of a device.
#[derive(Debug, Clone, PartialEq, Eq)]
pub struct VibrateCmd {
    /// Which device.
    pub device_index: u32,
    /// The speeds, taken one after the other.
    pub speeds: Vec<VibrateSubcommand>,
}

impl VibrateCmd {
    /// The speeds `speeds` for device `device_index`.
    pub fn new(device_index: u32, speeds: Vec<VibrateSubcommand>) -> (command: Self)
        ensures
            command.device_index == device_index,
            command.speeds == speeds,
    {
        VibrateCmd { device_index, speeds }
    }
}

/// A command that a device can be given.
#[derive(Debug, Clone, PartialEq, Eq)]
pub enum ButtplugDeviceCommandMessageUnion {
    VibrateCmd(VibrateCmd),
}

/// [`ButtplugDeviceCommandMessageUnion`], with a sequence of speeds.
pub ghost enum DeviceCommandView {
    VibrateCmd { device_index: u32, speeds: Seq<VibrateSubcommand> },
}

impl View for ButtplugDeviceCommandMessageUnion {
    type V = DeviceCommandView;

    open spec fn view(&self) -> DeviceCommandView {
        match *self {
            ButtplugDeviceCommandMessageUnion::VibrateCmd(command) =>
                DeviceCommandView::VibrateCmd {
                device_index: command.device_index,
                speeds: command.speeds@,
            },
        }
    }
}

/// A sequence of commands.
pub open spec fn commands_view(commands: Seq<ButtplugDeviceCommandMessageUnion>) -> Seq<
    DeviceCommandView,
> {
    Seq::new(commands.len(), |i: int| commands[i]@)
}

/// What a device can do with one kind of command.
#[derive(Debug, Clone, PartialEq, Eq)]
pub struct DeviceMessageAttributes {
    /// How many features of the device the command reaches.
    pub feature_count: Option<u32>,
    /// How many steps each of these features has.
    pub step_count: Option<Vec<u32>>,
}

/// What a device can do, by kind of command.
#[derive(Debug, Clone, PartialEq, Eq)]
pub struct DeviceMessageAttributesMap {
    /// What it can do with a [`VibrateCmd`]; `None` if nothing.
    pub vibrate_cmd: Option<DeviceMessageAttributes>,
}

impl DeviceMessageAttributesMap {
    /// How many vibrators the device has.
    pub open spec fn vibrators(self) -> nat {
        match self.vibrate_cmd {
            Some(attributes) => match attributes.feature_count {
                Some(count) => count as nat,
                None => 0,
            },
            None => 0,
        }
    }
}

/// An endpoint of a device.
#[derive(Debug, Clone, Copy, PartialEq, Eq, Structural)]
pub enum Endpoint {
    /// The one that commands are written to.
    Tx,
}

/// Bytes to be written to a device.
#[derive(Debug, Clone, PartialEq, Eq)]
pub struct DeviceWriteCmd {
    pub endpoint: Endpoint,
    pub data: Vec<u8>,
    /// Whether the device is to acknowledge the write.
    pub write_with_response: bool,
}

/// [`DeviceWriteCmd`], with a sequence of bytes.
pub ghost struct DeviceWriteView {
    pub endpoint: Endpoint,
    pub data: Seq<u8>,
    pub write_with_response: bool,
}

impl View for DeviceWriteCmd {
    type V = DeviceWriteView;

    open spec fn view(&self) -> DeviceWriteView {
        DeviceWriteView {
            endpoint: self.endpoint,
            data: self.data@,
            write_with_response: self.write_with_response,
        }
    }
}

impl DeviceWriteCmd {
    /// `data`, to be written to `endpoint`.
    pub fn new(endpoint: Endpoint, data: Vec<u8>, write_with_response: bool) -> (write: Self)
        ensures
            write@ == (DeviceWriteView { endpoint, data: data@, write_with_response }),
    {
        DeviceWriteCmd { endpoint, data, write_with_response }
    }
}

/// The answer to a command that was carried out.
#[derive(Debug, Clone, Copy, PartialEq, Eq, Structural)]
pub struct OkMessage;

/// Why a device refuses a command.
#[derive(Debug, Clone, Copy, PartialEq, Eq, Structural)]
pub enum ButtplugDeviceError {
    /// The command sets no speed at all.
    NoSubcommands,
    /// The command sets the speed of a vibrator that the device does not have.
    NoSuchFeature { index: u32 },
}

} // verus!
