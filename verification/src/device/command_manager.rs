//! What a device was last told.
//!
//! Some of the links to devices are very slow, so a command that would tell a
//! device nothing new is not sent.

use crate::device::messages::{
    commands_view, ButtplugDeviceCommandMessageUnion, ButtplugDeviceError, DeviceCommandView,
    DeviceMessageAttributesMap, VibrateCmd, VibrateSubcommand,
};
use vstd::prelude::*;

verus! {

/// What a device was last told of its vibrators.
pub ghost struct VibrationView {
    /// Whether the device was told anything yet.
    pub sent: bool,
    /// The speed of each vibrator, 0 until it is set.
    pub speeds: Seq<u32>,
}

impl VibrationView {
    /// A device with `count` vibrators that was told nothing yet.
    pub open spec fn fresh(count: nat) -> Self {
        VibrationView { sent: false, speeds: Seq::new(count, |i: int| 0u32) }
    }

    /// The speeds once those of `set` have been taken one after the other.
    pub open spec fn speeds_after(self, set: Seq<VibrateSubcommand>) -> Seq<u32>
        decreases set.len(),
    {
        if set.len() == 0 {
            self.speeds
        } else {
            self.speeds_after(set.drop_last()).update(
                set.last().index as int,
                set.last().speed,
            )
        }
    }

    /// What the device was told once it was told of `set`.
    pub open spec fn after(self, set: Seq<VibrateSubcommand>) -> Self {
        VibrationView { sent: true, speeds: self.speeds_after(set) }
    }

    /// `set` says something new of vibrator `index`: a speed that is not the one it
    /// has when that speed is taken, or any speed if the device was told nothing
    /// yet.
    pub open spec fn is_news(self, set: Seq<VibrateSubcommand>, index: int) -> bool {
        exists|k: int|
            0 <= k < set.len() && (#[trigger] set[k]).index == index && (!self.sent
                || self.speeds_after(set.take(k))[index] != set[k].speed)
    }

    /// `set` says something new of some vibrator.
    pub open spec fn has_news(self, set: Seq<VibrateSubcommand>) -> bool {
        exists|index: int| 0 <= index < self.speeds.len() && #[trigger] self.is_news(set, index)
    }

    /// The speeds to be sent for `set`: of all vibrators if `match_all`, otherwise
    /// of those of which `set` says something new.
    pub open spec fn to_send(self, set: Seq<VibrateSubcommand>, match_all: bool) -> Seq<
        Option<u32>,
    > {
        Seq::new(
            self.speeds.len(),
            |i: int|
                if match_all || self.is_news(set, i) {
                    Some(self.speeds_after(set)[i])
                } else {
                    None
                },
        )
    }
}

impl VibrationView {
    /// Taking speeds leaves the number of vibrators as it is.
    pub proof fn lemma_speeds_after_len(self, set: Seq<VibrateSubcommand>)
        requires
            forall|k: int| 0 <= k < set.len() ==> (#[trigger] set[k]).index < self.speeds.len(),
        ensures
            self.speeds_after(set).len() == self.speeds.len(),
        decreases set.len(),
    {
        if set.len() > 0 {
            self.lemma_speeds_after_len(set.drop_last());
        }
    }

    /// One more speed at the end of `set` is taken after the others, and is the
    /// only further chance of news.
    proof fn lemma_one_more(self, set: Seq<VibrateSubcommand>, k: int)
        requires
            0 <= k < set.len(),
        ensures
            self.speeds_after(set.take(k + 1)) == self.speeds_after(set.take(k)).update(
                set[k].index as int,
                set[k].speed,
            ),
            forall|index: int| #[trigger]
                self.is_news(set.take(k + 1), index) <==> self.is_news(set.take(k), index) || (
                set[k].index == index && (!self.sent || self.speeds_after(set.take(k))[index]
                    != set[k].speed)),
    {
        let before = set.take(k);
        let after = set.take(k + 1);
        assert(after.drop_last() =~= before);
        assert forall|index: int| #[trigger]
            self.is_news(after, index) <==> self.is_news(before, index) || (set[k].index == index
                && (!self.sent || self.speeds_after(before)[index] != set[k].speed)) by {
            assert forall|j: int| 0 <= j <= k implies after.take(j) == #[trigger] set.take(j) by {
                assert(after.take(j) =~= set.take(j));
            }
            assert forall|j: int| 0 <= j < k implies before.take(j) == #[trigger] set.take(j) by {
                assert(before.take(j) =~= set.take(j));
            }
            if self.is_news(after, index) {
                let j = choose|j: int|
                    0 <= j < after.len() && (#[trigger] after[j]).index == index && (!self.sent
                        || self.speeds_after(after.take(j))[index] != after[j].speed);
                if j < k {
                    assert(before[j] == after[j]);
                    assert(before.take(j) == after.take(j));
                    assert(self.is_news(before, index));
                }
            }
            if self.is_news(before, index) {
                let j = choose|j: int|
                    0 <= j < before.len() && (#[trigger] before[j]).index == index && (!self.sent
                        || self.speeds_after(before.take(j))[index] != before[j].speed);
                assert(before[j] == after[j]);
                assert(before.take(j) == after.take(j));
            }
            if set[k].index == index && (!self.sent || self.speeds_after(before)[index]
                != set[k].speed) {
                assert(after[k] == set[k]);
                assert(after.take(k) == before);
            }
        }
    }
}

/// The first of `set` that is for a vibrator that a device with `count` vibrators
/// does not have.
pub open spec fn first_without_feature(set: Seq<VibrateSubcommand>, count: nat) -> Option<u32>
    decreases set.len(),
{
    if set.len() == 0 {
        None
    } else {
        match first_without_feature(set.drop_last(), count) {
            Some(index) => Some(index),
            None => if set.last().index < count {
                None
            } else {
                Some(set.last().index)
            },
        }
    }
}

/// Why a device with `count` vibrators refuses `set`, if it does.
pub open spec fn refusal(set: Seq<VibrateSubcommand>, count: nat) -> Option<ButtplugDeviceError> {
    if set.len() == 0 {
        Some(ButtplugDeviceError::NoSubcommands)
    } else {
        match first_without_feature(set, count) {
            Some(index) => Some(ButtplugDeviceError::NoSuchFeature { index }),
            None => None,
        }
    }
}

/// Speed 0 for each of `count` vibrators.
pub open spec fn stop_speeds(count: nat) -> Seq<VibrateSubcommand> {
    Seq::new(count, |i: int| VibrateSubcommand { index: i as u32, speed: 0 })
}

/// The commands that stop a device with `count` vibrators.
pub open spec fn stop_commands(count: nat) -> Seq<DeviceCommandView> {
    if count == 0 {
        Seq::empty()
    } else {
        seq![DeviceCommandView::VibrateCmd { device_index: 0, speeds: stop_speeds(count) }]
    }
}

/// Keeps what a device was last told.
#[derive(Debug)]
pub struct GenericCommandManager {
    sent_vibration: bool,
    vibrations: Vec<u32>,
}

impl View for GenericCommandManager {
    type V = VibrationView;

    closed spec fn view(&self) -> VibrationView {
        VibrationView { sent: self.sent_vibration, speeds: self.vibrations@ }
    }
}

impl GenericCommandManager {
    /// Vibrators are counted by `u32`.
    #[verifier::type_invariant]
    spec fn counted(self) -> bool {
        self.vibrations@.len() <= u32::MAX
    }

    /// A manager for a device that can do what `attributes` says and was told
    /// nothing yet.
    pub fn new(attributes: &DeviceMessageAttributesMap) -> (manager: Self)
        ensures
            manager@ == VibrationView::fresh(attributes.vibrators()),
            !manager@.sent,
            manager@.speeds.len() == attributes.vibrators(),
            forall|i: int| 0 <= i < manager@.speeds.len() ==> #[trigger] manager@.speeds[i] == 0,
    {
        let count: u32 = match &attributes.vibrate_cmd {
            Some(vibrate) => vibrate.feature_count.unwrap_or(0),
            None => 0,
        };
        let mut vibrations: Vec<u32> = Vec::new();
        let mut i: u32 = 0;
        while i < count
            invariant
                i <= count,
                vibrations@ == Seq::new(i as nat, |j: int| 0u32),
            decreases count - i,
        {
            vibrations.push(0);
            i = i + 1;
            assert(vibrations@ =~= Seq::new(i as nat, |j: int| 0u32));
        }
        GenericCommandManager { sent_vibration: false, vibrations }
    }

    /// The commands that stop the device: speed 0 for all of its vibrators.
    pub fn get_stop_commands(&self) -> (commands: Vec<ButtplugDeviceCommandMessageUnion>)
        ensures
            commands_view(commands@) == stop_commands(self@.speeds.len()),
    {
        proof {
            use_type_invariant(self);
        }
        let count: usize = self.vibrations.len();
        let mut commands: Vec<ButtplugDeviceCommandMessageUnion> = Vec::new();
        if count > 0 {
            let mut speeds: Vec<VibrateSubcommand> = Vec::new();
            let mut i: usize = 0;
            while i < count
                invariant
                    i <= count <= u32::MAX,
                    speeds@ == stop_speeds(i as nat),
                decreases count - i,
            {
                speeds.push(VibrateSubcommand::new(i as u32, 0));
                i = i + 1;
                assert(speeds@ =~= stop_speeds(i as nat));
            }
            commands.push(
                ButtplugDeviceCommandMessageUnion::VibrateCmd(VibrateCmd::new(0, speeds)),
            );
        }
        assert(commands_view(commands@) =~= stop_commands(
            self@.speeds.len(),
        ));
        commands
    }

    /// Takes a command and says what is to be sent for it.
    ///
    /// A command that sets no speed, or that of a vibrator that the device does not
    /// have, is refused, and nothing is taken of it. Of any other the speeds are
    /// kept. If it says something new, the speeds to be sent come back, by vibrator:
    /// those of all vibrators if `match_all`, otherwise those that are new. If it
    /// says nothing new, `None` comes back.
    pub fn update_vibration(&mut self, msg: &VibrateCmd, match_all: bool) -> (result: Result<
        Option<Vec<Option<u32>>>,
        ButtplugDeviceError,
    >)
        ensures
            match refusal(msg.speeds@, old(self)@.speeds.len()) {
                Some(error) => result == Err::<Option<Vec<Option<u32>>>, _>(error)
                    && final(self)@ == old(self)@,
                None => {
                    &&& final(self)@ == old(self)@.after(msg.speeds@)
                    &&& result matches Ok(to_send) && match to_send {
                        Some(to_send) => old(self)@.has_news(msg.speeds@) && to_send@ == old(
                            self,
                        )@.to_send(msg.speeds@, match_all),
                        None => !old(self)@.has_news(msg.speeds@),
                    }
                },
            },
    {
        proof {
            use_type_invariant(&*self);
        }
        let ghost set = msg.speeds@;
        let ghost before = self@;
        let count: usize = self.vibrations.len();
        if msg.speeds.len() == 0 {
            return Err(ButtplugDeviceError::NoSubcommands);
        }
        let mut i: usize = 0;
        while i < msg.speeds.len()
            invariant
                set == msg.speeds@,
                before == self@,
                before == old(self)@,
                count == before.speeds.len(),
                0 < set.len(),
                i <= set.len(),
                forall|j: int| 0 <= j < i ==> (#[trigger] set[j]).index < count,
                first_without_feature(set.take(i as int), count as nat) is None,
            decreases set.len() - i,
        {
            let index: u32 = msg.speeds[i].index;
            assert(set.take(i + 1).drop_last() =~= set.take(i as int));
            if index as usize >= count {
                proof {
                    lemma_first_without_feature_stays(set, i + 1, count as nat);
                }
                return Err(ButtplugDeviceError::NoSuchFeature { index });
            }
            i = i + 1;
        }
        assert(set.take(set.len() as int) =~= set);

        let mut speeds: Vec<u32> = self.vibrations.clone();
        let mut news: Vec<bool> = Vec::new();
        let mut k: usize = 0;
        while k < count
            invariant
                k <= count,
                news@ == Seq::new(k as nat, |j: int| false),
            decreases count - k,
        {
            news.push(false);
            k = k + 1;
            assert(news@ =~= Seq::new(k as nat, |j: int| false));
        }
        let mut changed: bool = false;
        k = 0;
        assert(speeds@ =~= before.speeds_after(set.take(0)));
        while k < msg.speeds.len()
            invariant
                set == msg.speeds@,
                before == self@,
                count == before.speeds.len(),
                k <= set.len(),
                forall|j: int| 0 <= j < set.len() ==> (#[trigger] set[j]).index < count,
                speeds@ == before.speeds_after(set.take(k as int)),
                speeds@.len() == count,
                news@.len() == count,
                forall|j: int| 0 <= j < count ==> #[trigger] news@[j] == before.is_news(
                    set.take(k as int),
                    j,
                ),
                changed == (exists|j: int| 0 <= j < count && #[trigger] news@[j]),
            decreases set.len() - k,
        {
            let subcommand: VibrateSubcommand = msg.speeds[k];
            let index: usize = subcommand.index as usize;
            proof {
                before.lemma_one_more(set, k as int);
            }
            if !self.sent_vibration || speeds[index] != subcommand.speed {
                news.set(index, true);
                changed = true;
                assert(news@[index as int]);
            }
            speeds.set(index, subcommand.speed);
            k = k + 1;
        }
        let mut to_send: Vec<Option<u32>> = Vec::new();
        k = 0;
        while k < count
            invariant
                k <= count,
                count == before.speeds.len(),
                speeds@ == before.speeds_after(set),
                speeds@.len() == count,
                news@.len() == count,
                forall|j: int| 0 <= j < count ==> #[trigger] news@[j] == before.is_news(set, j),
                to_send@ == before.to_send(set, match_all).take(k as int),
            decreases count - k,
        {
            if match_all || news[k] {
                to_send.push(Some(speeds[k]));
            } else {
                to_send.push(None);
            }
            k = k + 1;
            assert(to_send@ =~= before.to_send(set, match_all).take(k as int));
        }
        assert(to_send@ =~= before.to_send(set, match_all));
        self.vibrations = speeds;
        self.sent_vibration = true;
        proof {
            if changed {
                let j = choose|j: int| 0 <= j < count && #[trigger] news@[j];
                assert(before.is_news(set, j));
            }
            if before.has_news(set) {
                let j = choose|j: int|
                    0 <= j < before.speeds.len() && #[trigger] before.is_news(set, j);
                assert(news@[j]);
            }
        }
        if changed {
            Ok(Some(to_send))
        } else {
            Ok(None)
        }
    }
}

/// What comes after a subcommand for a vibrator that is not there does not change
/// which one is the first such.
proof fn lemma_first_without_feature_stays(set: Seq<VibrateSubcommand>, k: int, count: nat)
    requires
        0 <= k <= set.len(),
        first_without_feature(set.take(k), count) is Some,
    ensures
        first_without_feature(set, count) == first_without_feature(set.take(k), count),
    decreases set.len() - k,
{
    if k < set.len() {
        assert(set.take(k + 1).drop_last() =~= set.take(k));
        lemma_first_without_feature_stays(set, k + 1, count);
    } else {
        assert(set.take(k) =~= set);
    }
}

} // verus!
