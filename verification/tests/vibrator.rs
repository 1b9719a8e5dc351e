use buttplug::device::command_manager::GenericCommandManager;
use buttplug::device::kiiroo_v2_vibrator::{KiirooV2Vibrator, VibrateStep};
use buttplug::device::messages::{
    ButtplugDeviceCommandMessageUnion, ButtplugDeviceError, DeviceMessageAttributes,
    DeviceMessageAttributesMap, DeviceWriteCmd, Endpoint, OkMessage, VibrateCmd,
    VibrateSubcommand,
};

fn attributes(vibrators: u32) -> DeviceMessageAttributesMap {
    DeviceMessageAttributesMap {
        vibrate_cmd: Some(DeviceMessageAttributes {
            feature_count: Some(vibrators),
            step_count: Some(vec![100; vibrators as usize]),
        }),
    }
}

fn new_test_device(name: &str, vibrators: u32) -> KiirooV2Vibrator {
    KiirooV2Vibrator::new_protocol(name, attributes(vibrators))
}

/// Speeds between 0.0 and 1.0, in steps of the device.
fn vibrate(device: &KiirooV2Vibrator, speeds: Vec<(u32, f64)>) -> VibrateCmd {
    let vibrate = device.message_attributes().vibrate_cmd.clone().unwrap();
    let steps = vibrate.step_count.unwrap();
    let mut set = Vec::new();
    for (index, speed) in speeds {
        let step = (speed * steps[index as usize] as f64).ceil() as u32;
        set.push(VibrateSubcommand::new(index, step));
    }
    VibrateCmd::new(0, set)
}

fn parse(
    device: &KiirooV2Vibrator,
    command: &VibrateCmd,
) -> Result<VibrateStep, ButtplugDeviceError> {
    let manager = device.manager();
    let mut guard = async_std::task::block_on(manager.lock());
    KiirooV2Vibrator::handle_vibrate_cmd(&mut guard, command)
}

/// What the device receives, in order, when it is given these commands.
fn received(device: &KiirooV2Vibrator, commands: &Vec<VibrateCmd>) -> Vec<DeviceWriteCmd> {
    let mut writes = Vec::new();
    for command in commands {
        match parse(device, command).unwrap() {
            VibrateStep::Write(write) => {
                assert_eq!(KiirooV2Vibrator::vibrate_written::<u8>(Ok(())), Ok(OkMessage));
                writes.push(write);
            }
            VibrateStep::Done(answer) => assert_eq!(answer, OkMessage),
        }
    }
    writes
}

fn stop(device: &KiirooV2Vibrator) -> Vec<VibrateCmd> {
    let mut commands = Vec::new();
    for command in device.stop_commands() {
        match command {
            ButtplugDeviceCommandMessageUnion::VibrateCmd(vibrate) => {
                commands.push(vibrate.clone())
            }
        }
    }
    commands
}

fn write(data: Vec<u8>) -> DeviceWriteCmd {
    DeviceWriteCmd::new(Endpoint::Tx, data, false)
}

#[test]
fn test_kiiroov2vibrator_protocol_3_features() {
    let device = new_test_device("Titan", 3);
    let command = vibrate(&device, vec![(0, 0.25), (1, 0.5), (2, 0.75)]);
    assert_eq!(received(&device, &vec![command.clone()]), vec![write(vec![25, 50, 75])]);
    // Since we only created one subcommand, we should only receive one command.
    assert!(received(&device, &vec![command]).is_empty());
    assert_eq!(received(&device, &stop(&device)), vec![write(vec![0x0, 0x0, 0x0])]);
}

#[test]
fn test_kiiroov2vibrator_protocol_2_features() {
    let device = new_test_device("Fuse", 2);
    let command = vibrate(&device, vec![(0, 0.25), (1, 0.5)]);
    assert_eq!(received(&device, &vec![command.clone()]), vec![write(vec![25, 50, 0])]);
    // Since we only created one subcommand, we should only receive one command.
    assert!(received(&device, &vec![command]).is_empty());
    assert_eq!(received(&device, &stop(&device)), vec![write(vec![0x0, 0x0, 0x0])]);
}

#[test]
fn test_kiiroov2vibrator_protocol_1_features() {
    let device = new_test_device("Pearl2", 1);
    let command = vibrate(&device, vec![(0, 0.25)]);
    assert_eq!(received(&device, &vec![command.clone()]), vec![write(vec![25, 0, 0])]);
    // Since we only created one subcommand, we should only receive one command.
    assert!(received(&device, &vec![command]).is_empty());
    assert_eq!(received(&device, &stop(&device)), vec![write(vec![0x0, 0x0, 0x0])]);
}

#[test]
fn new_protocol_keeps_name_and_attributes() {
    let device = new_test_device("Titan", 2);
    assert_eq!(device.name(), "Titan");
    assert_eq!(*device.message_attributes(), attributes(2));
    assert_eq!(
        *device.stop_commands(),
        vec![ButtplugDeviceCommandMessageUnion::VibrateCmd(VibrateCmd::new(
            0,
            vec![VibrateSubcommand::new(0, 0), VibrateSubcommand::new(1, 0)],
        ))]
    );
}

#[test]
fn device_without_vibrators_has_nothing_to_stop() {
    let no_count = DeviceMessageAttributesMap {
        vibrate_cmd: Some(DeviceMessageAttributes { feature_count: None, step_count: None }),
    };
    let nothing = DeviceMessageAttributesMap { vibrate_cmd: None };
    assert!(KiirooV2Vibrator::new_protocol("a", no_count).stop_commands().is_empty());
    assert!(KiirooV2Vibrator::new_protocol("b", nothing).stop_commands().is_empty());
    assert!(new_test_device("c", 0).stop_commands().is_empty());
}

#[test]
fn vibrate_write_fills_in_zeros_and_drops_the_rest() {
    assert_eq!(KiirooV2Vibrator::vibrate_write(&vec![]), write(vec![0, 0, 0]));
    assert_eq!(KiirooV2Vibrator::vibrate_write(&vec![None, Some(7)]), write(vec![0, 7, 0]));
    assert_eq!(
        KiirooV2Vibrator::vibrate_write(&vec![Some(1), Some(2), Some(3), Some(4)]),
        write(vec![1, 2, 3])
    );
}

#[test]
fn vibrate_write_keeps_the_low_byte() {
    assert_eq!(
        KiirooV2Vibrator::vibrate_write(&vec![Some(255), Some(256), Some(300)]),
        write(vec![255, 0, 44])
    );
    assert_eq!(KiirooV2Vibrator::vibrate_write(&vec![Some(u32::MAX)]), write(vec![255, 0, 0]));
}

#[test]
fn vibrate_step_follows_the_update() {
    assert_eq!(KiirooV2Vibrator::vibrate_step::<&str>(Err("no")), Err("no"));
    assert_eq!(KiirooV2Vibrator::vibrate_step::<&str>(Ok(None)), Ok(VibrateStep::Done(OkMessage)));
    assert_eq!(
        KiirooV2Vibrator::vibrate_step::<&str>(Ok(Some(vec![Some(25), None, Some(75)]))),
        Ok(VibrateStep::Write(write(vec![25, 0, 75])))
    );
}

#[test]
fn failed_write_is_the_answer() {
    assert_eq!(KiirooV2Vibrator::vibrate_written::<&str>(Err("gone")), Err("gone"));
    assert_eq!(KiirooV2Vibrator::vibrate_written::<&str>(Ok(())), Ok(OkMessage));
}

#[test]
fn empty_command_is_refused() {
    let device = new_test_device("Titan", 3);
    assert_eq!(
        parse(&device, &VibrateCmd::new(0, vec![])),
        Err(ButtplugDeviceError::NoSubcommands)
    );
}

#[test]
fn missing_vibrator_is_refused_and_nothing_is_kept() {
    let device = new_test_device("Fuse", 2);
    let refused = VibrateCmd::new(
        0,
        vec![
            VibrateSubcommand::new(0, 9),
            VibrateSubcommand::new(7, 1),
            VibrateSubcommand::new(2, 1),
        ],
    );
    assert_eq!(parse(&device, &refused), Err(ButtplugDeviceError::NoSuchFeature { index: 7 }));
    let command = VibrateCmd::new(0, vec![VibrateSubcommand::new(1, 5)]);
    assert_eq!(received(&device, &vec![command]), vec![write(vec![0, 5, 0])]);
}

#[test]
fn other_vibrators_are_told_their_speed_again() {
    let device = new_test_device("Titan", 3);
    let first = vibrate(&device, vec![(0, 0.25), (1, 0.5), (2, 0.75)]);
    let second = vibrate(&device, vec![(1, 1.0)]);
    assert_eq!(
        received(&device, &vec![first, second]),
        vec![write(vec![25, 50, 75]), write(vec![25, 100, 75])]
    );
}

#[test]
fn first_command_is_sent_even_at_speed_zero() {
    let device = new_test_device("Pearl2", 1);
    let still = vibrate(&device, vec![(0, 0.0)]);
    assert_eq!(received(&device, &vec![still.clone(), still]), vec![write(vec![0, 0, 0])]);
}

#[test]
fn stop_of_a_still_device_is_not_sent_again() {
    let device = new_test_device("Titan", 3);
    let stops = stop(&device);
    assert_eq!(received(&device, &stops), vec![write(vec![0, 0, 0])]);
    assert!(received(&device, &stops).is_empty());
}

#[test]
fn command_that_disagrees_with_itself_is_sent_every_time() {
    let device = new_test_device("Pearl2", 1);
    let command = VibrateCmd::new(
        0,
        vec![VibrateSubcommand::new(0, 5), VibrateSubcommand::new(0, 7)],
    );
    assert_eq!(
        received(&device, &vec![command.clone(), command]),
        vec![write(vec![7, 0, 0]), write(vec![7, 0, 0])]
    );
}

#[test]
fn command_without_news_keeps_what_was_told() {
    let device = new_test_device("Fuse", 2);
    let first = vibrate(&device, vec![(0, 0.25), (1, 0.5)]);
    let old_news = vibrate(&device, vec![(1, 0.5)]);
    let news = vibrate(&device, vec![(0, 0.5)]);
    assert_eq!(
        received(&device, &vec![first, old_news, news]),
        vec![write(vec![25, 50, 0]), write(vec![50, 50, 0])]
    );
}

#[test]
fn only_news_comes_back_without_match_all() {
    let mut manager = GenericCommandManager::new(&attributes(3));
    let first = VibrateCmd::new(0, vec![VibrateSubcommand::new(0, 1), VibrateSubcommand::new(2, 3)]);
    assert_eq!(manager.update_vibration(&first, false), Ok(Some(vec![Some(1), None, Some(3)])));
    let second = VibrateCmd::new(0, vec![VibrateSubcommand::new(0, 1), VibrateSubcommand::new(2, 4)]);
    assert_eq!(manager.update_vibration(&second, false), Ok(Some(vec![None, None, Some(4)])));
    assert_eq!(manager.update_vibration(&second, false), Ok(None));
}
