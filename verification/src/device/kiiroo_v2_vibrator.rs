//! The protocol of Kiiroo's second generation of vibrators.
//!
//! These devices take the speeds of up to three vibrators in one write, a byte for
//! each. A device with fewer takes the same write, with 0 for those it lacks.

use crate::device::command_manager::{
    refusal, stop_commands, GenericCommandManager, VibrationView,
};
use crate::device::messages::{
    commands_view, ButtplugDeviceCommandMessageUnion, ButtplugDeviceError,
    DeviceMessageAttributesMap, DeviceWriteCmd, DeviceWriteView, Endpoint, OkMessage, VibrateCmd,
};
use crate::outside::new_lock;
use std::sync::Arc;
use tokio::sync::Mutex;
use vstd::prelude::*;

verus! {

/// The byte for vibrator `index`: the low byte of its speed, 0 if there is none.
pub open spec fn speed_byte(speeds: Seq<Option<u32>>, index: int) -> u8 {
    if 0 <= index < speeds.len() {
        match speeds[index] {
            Some(speed) => (speed % 256) as u8,
            None => 0,
        }
    } else {
        0
    }
}

/// The write that tells a device these speeds.
pub open spec fn speed_write(speeds: Seq<Option<u32>>) -> DeviceWriteView {
    DeviceWriteView {
        endpoint: Endpoint::Tx,
        data: seq![speed_byte(speeds, 0), speed_byte(speeds, 1), speed_byte(speeds, 2)],
        write_with_response: false,
    }
}

/// The byte for vibrator `index` of `cmds`.
fn byte_of(cmds: &Vec<Option<u32>>, index: usize) -> (byte: u8)
    ensures
        byte == speed_byte(cmds@, index as int),
{
    if index < cmds.len() {
        match cmds[index] {
            Some(speed) => {
                assert(speed as u8 == (speed % 256) as u8) by (bit_vector);
                #[verifier::truncate]
                (speed as u8)
            },
            None => 0,
        }
    } else {
        0
    }
}

/// What there is to do for a vibration command that was accepted.
#[derive(Debug, Clone, PartialEq, Eq)]
pub enum VibrateStep {
    /// Write this to the device; how that went is the answer.
    Write(DeviceWriteCmd),
    /// Nothing is to be written; this is the answer.
    Done(OkMessage),
}

/// A device that speaks this protocol.
pub struct KiirooV2Vibrator {
    name: String,
    message_attributes: DeviceMessageAttributesMap,
    manager: Arc<Mutex<GenericCommandManager>>,
    stop_commands: Vec<ButtplugDeviceCommandMessageUnion>,
}

impl KiirooV2Vibrator {
    /// The name of the device.
    pub closed spec fn name_view(self) -> Seq<char> {
        self.name@
    }

    /// What the device can do.
    pub closed spec fn attributes(self) -> DeviceMessageAttributesMap {
        self.message_attributes
    }

    /// The commands that stop the device.
    pub closed spec fn stop_commands_view(self) -> Seq<ButtplugDeviceCommandMessageUnion> {
        self.stop_commands@
    }

    /// The lock around what the device was last told.
    pub closed spec fn lock(self) -> Arc<Mutex<GenericCommandManager>> {
        self.manager
    }

    /// The lock was made around `manager`: it is what [`Mutex::new`] gave for it.
    pub closed spec fn lock_made_around(self, manager: GenericCommandManager) -> bool {
        call_ensures(new_lock::<GenericCommandManager>, (manager,), *self.manager)
    }

    /// A device of that name that can do what `message_attributes` says. It was
    /// told nothing yet.
    pub fn new_protocol(name: &str, message_attributes: DeviceMessageAttributesMap) -> (device:
        Self)
        ensures
            device.name_view() == name@,
            device.attributes() == message_attributes,
            commands_view(device.stop_commands_view()) == stop_commands(
                message_attributes.vibrators(),
            ),
            exists|manager: GenericCommandManager|
                manager@ == VibrationView::fresh(message_attributes.vibrators())
                    && #[trigger] device.lock_made_around(manager),
    {
        let manager = GenericCommandManager::new(&message_attributes);
        let stop_commands = manager.get_stop_commands();
        let ghost around = manager;
        let device = KiirooV2Vibrator {
            name: name.to_owned(),
            message_attributes,
            stop_commands,
            manager: Arc::new(new_lock(manager)),
        };
        assert(device.lock_made_around(around));
        device
    }

    /// The write that tells a device the speeds `cmds`, one for each vibrator.
    pub fn vibrate_write(cmds: &Vec<Option<u32>>) -> (write: DeviceWriteCmd)
        ensures
            write@ == speed_write(cmds@),
            write.endpoint == Endpoint::Tx,
            !write.write_with_response,
            write.data@.len() == 3,
            forall|i: int|
                0 <= i < 3 ==> #[trigger] write.data@[i] == (if i < cmds@.len() && cmds@[i] is Some {
                    cmds@[i]->0 % 256
                } else {
                    0
                }),
    {
        let data: Vec<u8> = vec![byte_of(cmds, 0), byte_of(cmds, 1), byte_of(cmds, 2)];
        assert(data@ =~= speed_write(cmds@).data);
        DeviceWriteCmd::new(Endpoint::Tx, data, false)
    }

    /// What there is to do given what `update_vibration` said: an error is the
    /// answer, speeds are written, and where there are none nothing is done.
    pub fn vibrate_step<E>(updated: Result<Option<Vec<Option<u32>>>, E>) -> (step: Result<
        VibrateStep,
        E,
    >)
        ensures
            match updated {
                Err(error) => step == Err::<VibrateStep, E>(error),
                Ok(None) => step == Ok::<VibrateStep, E>(VibrateStep::Done(OkMessage)),
                Ok(Some(cmds)) => step matches Ok(VibrateStep::Write(write)) && write@
                    == speed_write(cmds@),
            },
    {
        match updated {
            Err(error) => Err(error),
            Ok(None) => Ok(VibrateStep::Done(OkMessage)),
            Ok(Some(cmds)) => Ok(VibrateStep::Write(Self::vibrate_write(&cmds))),
        }
    }

    /// The answer to a command for which a write was made: the error of the write,
    /// if there is one.
    pub fn vibrate_written<E>(written: Result<(), E>) -> (answer: Result<OkMessage, E>)
        ensures
            answer == (match written {
                Ok(_) => Ok::<OkMessage, E>(OkMessage),
                Err(error) => Err::<OkMessage, E>(error),
            }),
    {
        match written {
            Ok(_) => Ok(OkMessage),
            Err(error) => Err(error),
        }
    }

    /// Handles a vibration command, given what is behind the device's lock.
    ///
    /// A command that the manager refuses is answered with its error. One that tells
    /// the device something new leads to a write with the speeds of all vibrators.
    /// Any other is answered at once.
    pub fn handle_vibrate_cmd(manager: &mut GenericCommandManager, message: &VibrateCmd) -> (step:
        Result<VibrateStep, ButtplugDeviceError>)
        ensures
            match refusal(message.speeds@, old(manager)@.speeds.len()) {
                Some(error) => step == Err::<VibrateStep, ButtplugDeviceError>(error)
                    && final(manager)@ == old(manager)@,
                None => {
                    &&& final(manager)@ == old(manager)@.after(message.speeds@)
                    &&& if old(manager)@.has_news(message.speeds@) {
                        step matches Ok(VibrateStep::Write(write)) && write@ == speed_write(
                            old(manager)@.to_send(message.speeds@, true),
                        )
                    } else {
                        step == Ok::<VibrateStep, ButtplugDeviceError>(VibrateStep::Done(OkMessage))
                    }
                },
            },
    {
        Self::vibrate_step(manager.update_vibration(message, true))
    }

    /// The lock around what the device was last told, for moving it into a task.
    pub fn manager(&self) -> (manager: Arc<Mutex<GenericCommandManager>>)
        ensures
            manager == self.lock(),
    {
        self.manager.clone()
    }

    /// The name of the device.
    pub fn name(&self) -> (name: &str)
        ensures
            name@ == self.name_view(),
    {
        self.name.as_str()
    }

    /// What the device can do.
    pub fn message_attributes(&self) -> (attributes: &DeviceMessageAttributesMap)
        ensures
            *attributes == self.attributes(),
    {
        &self.message_attributes
    }

    /// The commands that stop the device.
    pub fn stop_commands(&self) -> (commands: &Vec<ButtplugDeviceCommandMessageUnion>)
        ensures
            commands@ == self.stop_commands_view(),
    {
        &self.stop_commands
    }
}

/// A lock that was made around a manager is what the call that makes locks gave for
/// that manager, and is the one that [`KiirooV2Vibrator::manager`] hands out.
proof fn law_lock_is_made_by_the_call(device: KiirooV2Vibrator, manager: GenericCommandManager)
    requires
        device.lock_made_around(manager),
    ensures
        call_ensures(new_lock::<GenericCommandManager>, (manager,), *device.lock()),
{
}

} // verus!
