//! What holds of vibration commands, one after the other.

use crate::device::command_manager::{
    first_without_feature, refusal, stop_commands, stop_speeds, VibrationView,
};
use crate::device::kiiroo_v2_vibrator::speed_write;
use crate::device::messages::{
    commands_view, ButtplugDeviceCommandMessageUnion, ButtplugDeviceError, DeviceCommandView,
    DeviceMessageAttributesMap, DeviceWriteCmd, Endpoint, VibrateSubcommand,
};
use vstd::prelude::*;

verus! {

/// All of `set` is for vibrators that a device with `count` vibrators has.
pub open spec fn all_have_features(set: Seq<VibrateSubcommand>, count: nat) -> bool {
    forall|k: int| 0 <= k < set.len() ==> (#[trigger] set[k]).index < count
}

/// No two of `set` give one vibrator different speeds.
pub open spec fn agrees(set: Seq<VibrateSubcommand>) -> bool {
    forall|i: int, j: int|
        0 <= i < set.len() && 0 <= j < set.len() && (#[trigger] set[i]).index == (
        #[trigger] set[j]).index ==> set[i].speed == set[j].speed
}

proof fn lemma_first_without_feature(set: Seq<VibrateSubcommand>, count: nat)
    ensures
        first_without_feature(set, count) is None <==> all_have_features(set, count),
    decreases set.len(),
{
    if set.len() > 0 {
        let fewer = set.drop_last();
        lemma_first_without_feature(fewer, count);
        if all_have_features(fewer, count) && set.last().index < count {
            assert forall|k: int| 0 <= k < set.len() implies (#[trigger] set[k]).index < count by {
                if k < fewer.len() {
                    assert(fewer[k].index < count);
                }
            }
        }
        if all_have_features(set, count) {
            assert forall|k: int| 0 <= k < fewer.len() implies (#[trigger] fewer[k]).index
                < count by {
                assert(set[k].index < count);
            }
            assert(set[set.len() - 1].index < count);
        }
    }
}

/// A command is accepted exactly if it sets some speed, and only speeds of
/// vibrators that the device has.
pub proof fn law_what_is_accepted(set: Seq<VibrateSubcommand>, count: nat)
    ensures
        refusal(set, count) is None <==> set.len() > 0 && all_have_features(set, count),
{
    lemma_first_without_feature(set, count);
}

/// The last speed that an accepted command gives a vibrator is the one that it has
/// afterwards.
pub proof fn law_last_speed_of_a_vibrator_counts(
    told: VibrationView,
    set: Seq<VibrateSubcommand>,
    k: int,
)
    requires
        refusal(set, told.speeds.len()) is None,
        0 <= k < set.len(),
        forall|j: int| k < j < set.len() ==> (#[trigger] set[j]).index != set[k].index,
    ensures
        told.after(set).speeds[set[k].index as int] == set[k].speed,
{
    law_what_is_accepted(set, told.speeds.len());
    lemma_last_speed(told, set, k);
}

proof fn lemma_last_speed(told: VibrationView, set: Seq<VibrateSubcommand>, k: int)
    requires
        all_have_features(set, told.speeds.len()),
        0 <= k < set.len(),
        forall|j: int| k < j < set.len() ==> (#[trigger] set[j]).index != set[k].index,
    ensures
        told.speeds_after(set)[set[k].index as int] == set[k].speed,
    decreases set.len(),
{
    let fewer = set.drop_last();
    assert forall|j: int| 0 <= j < fewer.len() implies (#[trigger] fewer[j]).index
        < told.speeds.len() by {
        assert(set[j].index < told.speeds.len());
    }
    told.lemma_speeds_after_len(fewer);
    assert(set[set.len() - 1].index < told.speeds.len());
    assert(set[k].index < told.speeds.len());
    if k < fewer.len() {
        assert forall|j: int| k < j < fewer.len() implies (#[trigger] fewer[j]).index
            != fewer[k].index by {
            assert(set[j].index != set[k].index);
        }
        assert(set[set.len() - 1].index != set[k].index);
        lemma_last_speed(told, fewer, k);
    }
}

/// A vibrator that an accepted command does not mention keeps its speed.
pub proof fn law_other_vibrators_keep_their_speed(
    told: VibrationView,
    set: Seq<VibrateSubcommand>,
    index: int,
)
    requires
        refusal(set, told.speeds.len()) is None,
        0 <= index < told.speeds.len(),
        forall|k: int| 0 <= k < set.len() ==> (#[trigger] set[k]).index != index,
    ensures
        told.after(set).speeds[index] == told.speeds[index],
        told.after(set).speeds.len() == told.speeds.len(),
{
    law_what_is_accepted(set, told.speeds.len());
    told.lemma_speeds_after_len(set);
    lemma_other_speeds(told, set, index);
}

proof fn lemma_other_speeds(told: VibrationView, set: Seq<VibrateSubcommand>, index: int)
    requires
        all_have_features(set, told.speeds.len()),
        0 <= index < told.speeds.len(),
        forall|k: int| 0 <= k < set.len() ==> (#[trigger] set[k]).index != index,
    ensures
        told.speeds_after(set)[index] == told.speeds[index],
    decreases set.len(),
{
    if set.len() > 0 {
        let fewer = set.drop_last();
        assert forall|j: int| 0 <= j < fewer.len() implies (#[trigger] fewer[j]).index
            < told.speeds.len() && fewer[j].index != index by {
            assert(set[j].index < told.speeds.len());
        }
        told.lemma_speeds_after_len(fewer);
        assert(set[set.len() - 1].index != index);
        assert(set[set.len() - 1].index < told.speeds.len());
        lemma_other_speeds(told, fewer, index);
    }
}

/// Where no two of `set` disagree, all of their speeds hold at once.
proof fn lemma_agreeing_speeds(told: VibrationView, set: Seq<VibrateSubcommand>, k: int)
    requires
        all_have_features(set, told.speeds.len()),
        agrees(set),
        0 <= k < set.len(),
    ensures
        told.speeds_after(set)[set[k].index as int] == set[k].speed,
    decreases set.len() - k,
{
    if exists|j: int| k < j < set.len() && (#[trigger] set[j]).index == set[k].index {
        let j = choose|j: int| k < j < set.len() && (#[trigger] set[j]).index == set[k].index;
        lemma_agreeing_speeds(told, set, j);
    } else {
        lemma_last_speed(told, set, k);
    }
}

/// Speeds that hold already change nothing.
proof fn lemma_held_speeds_change_nothing(told: VibrationView, set: Seq<VibrateSubcommand>)
    requires
        all_have_features(set, told.speeds.len()),
        forall|k: int|
            0 <= k < set.len() ==> told.speeds[(#[trigger] set[k]).index as int] == set[k].speed,
    ensures
        told.speeds_after(set) == told.speeds,
    decreases set.len(),
{
    if set.len() > 0 {
        let fewer = set.drop_last();
        assert forall|j: int| 0 <= j < fewer.len() implies (#[trigger] fewer[j]).index
            < told.speeds.len() && told.speeds[fewer[j].index as int] == fewer[j].speed by {
            assert(set[j].index < told.speeds.len());
        }
        lemma_held_speeds_change_nothing(told, fewer);
        assert(set[set.len() - 1].index < told.speeds.len());
        assert(told.speeds_after(set) =~= told.speeds);
    }
}

/// Speeds that hold already are no news to a device that was told something.
proof fn lemma_held_speeds_are_no_news(told: VibrationView, set: Seq<VibrateSubcommand>)
    requires
        told.sent,
        all_have_features(set, told.speeds.len()),
        forall|k: int|
            0 <= k < set.len() ==> told.speeds[(#[trigger] set[k]).index as int] == set[k].speed,
    ensures
        !told.has_news(set),
{
    assert forall|index: int| 0 <= index < told.speeds.len() implies !#[trigger] told.is_news(
        set,
        index,
    ) by {
        assert forall|k: int|
            0 <= k < set.len() && (#[trigger] set[k]).index == index implies told.speeds_after(
            set.take(k),
        )[index] == set[k].speed by {
            let earlier = set.take(k);
            assert forall|j: int| 0 <= j < earlier.len() implies (#[trigger] earlier[j]).index
                < told.speeds.len() && told.speeds[earlier[j].index as int]
                == earlier[j].speed by {
                assert(set[j].index < told.speeds.len());
            }
            lemma_held_speeds_change_nothing(told, earlier);
        }
    }
}

/// A command that was accepted is not sent again when it is repeated, and the
/// repetition changes nothing, provided that it does not give one vibrator
/// different speeds.
pub proof fn law_repeated_command_is_not_sent(told: VibrationView, set: Seq<VibrateSubcommand>)
    requires
        refusal(set, told.speeds.len()) is None,
        agrees(set),
    ensures
        refusal(set, told.after(set).speeds.len()) is None,
        !told.after(set).has_news(set),
        told.after(set).after(set) == told.after(set),
{
    law_what_is_accepted(set, told.speeds.len());
    told.lemma_speeds_after_len(set);
    let after = told.after(set);
    assert forall|k: int| 0 <= k < set.len() implies after.speeds[(
    #[trigger] set[k]).index as int] == set[k].speed by {
        lemma_agreeing_speeds(told, set, k);
    }
    lemma_held_speeds_are_no_news(after, set);
    lemma_held_speeds_change_nothing(after, set);
}

/// A command that is accepted and tells a device nothing new leaves the speeds as
/// they are: what is kept is what the device was last told.
pub proof fn law_command_without_news_changes_nothing(
    told: VibrationView,
    set: Seq<VibrateSubcommand>,
)
    requires
        told.sent,
        refusal(set, told.speeds.len()) is None,
        !told.has_news(set),
    ensures
        told.after(set) == told,
{
    law_what_is_accepted(set, told.speeds.len());
    lemma_no_news_so_far(told, set, set.len() as int);
    assert(set.take(set.len() as int) =~= set);
}

/// Without news the speeds are as they were, however many of `set` were taken.
proof fn lemma_no_news_so_far(told: VibrationView, set: Seq<VibrateSubcommand>, k: int)
    requires
        told.sent,
        all_have_features(set, told.speeds.len()),
        !told.has_news(set),
        0 <= k <= set.len(),
    ensures
        told.speeds_after(set.take(k)) == told.speeds,
    decreases k,
{
    if k > 0 {
        lemma_no_news_so_far(told, set, k - 1);
        let last = set[k - 1];
        assert(set.take(k).drop_last() =~= set.take(k - 1));
        assert(!told.is_news(set, last.index as int));
        assert(told.speeds_after(set.take(k)) =~= told.speeds);
    }
}

/// A first command that is accepted is always sent: what a device does before it
/// was told anything is not known.
pub proof fn law_first_command_is_sent(told: VibrationView, set: Seq<VibrateSubcommand>)
    requires
        !told.sent,
        refusal(set, told.speeds.len()) is None,
    ensures
        told.has_news(set),
{
    law_what_is_accepted(set, told.speeds.len());
    assert(set[0].index < told.speeds.len());
    assert(told.is_news(set, set[0].index as int));
}

/// Stopping a device that has vibrators is accepted, and leaves all of them at
/// speed 0. It is sent unless the device was already told that; what is sent is
/// three bytes of 0.
pub proof fn law_stop_command_stops(told: VibrationView)
    requires
        0 < told.speeds.len() <= u32::MAX,
    ensures
        ({
            let stop = stop_speeds(told.speeds.len());
            &&& refusal(stop, told.speeds.len()) is None
            &&& told.after(stop) == (VibrationView {
                sent: true,
                speeds: Seq::new(told.speeds.len(), |i: int| 0u32),
            })
            &&& told.has_news(stop) <==> !told.sent || exists|i: int|
                0 <= i < told.speeds.len() && #[trigger] told.speeds[i] != 0
            &&& speed_write(told.to_send(stop, true)).data == seq![0u8, 0u8, 0u8]
        }),
{
    let count = told.speeds.len();
    let stop = stop_speeds(count);
    assert(all_have_features(stop, count));
    law_what_is_accepted(stop, count);
    told.lemma_speeds_after_len(stop);
    assert forall|i: int| 0 <= i < count implies #[trigger] told.speeds_after(stop)[i] == 0 by {
        assert(stop[i].index == i);
        assert forall|j: int| i < j < stop.len() implies (#[trigger] stop[j]).index
            != stop[i].index by {}
        lemma_last_speed(told, stop, i);
    }
    assert(told.speeds_after(stop) =~= Seq::new(count, |i: int| 0u32));
    assert(speed_write(told.to_send(stop, true)).data =~= seq![0u8, 0u8, 0u8]);
    if !told.sent {
        law_first_command_is_sent(told, stop);
    } else if exists|i: int| 0 <= i < count && #[trigger] told.speeds[i] != 0 {
        let i = choose|i: int| 0 <= i < count && #[trigger] told.speeds[i] != 0;
        let earlier = stop.take(i);
        assert(all_have_features(earlier, count));
        assert forall|k: int| 0 <= k < earlier.len() implies (#[trigger] earlier[k]).index
            != i by {}
        lemma_other_speeds(told, earlier, i);
        assert(stop[i].index == i);
        assert(told.is_news(stop, i));
    } else {
        lemma_held_speeds_are_no_news(told, stop);
    }
}

/// A write tells the speeds of all vibrators, new or not: byte by byte the low byte
/// of each, and 0 where the device has no such vibrator.
pub proof fn law_write_tells_all_speeds(
    told: VibrationView,
    set: Seq<VibrateSubcommand>,
    index: int,
)
    requires
        refusal(set, told.speeds.len()) is None,
        0 <= index < 3,
    ensures
        speed_write(told.to_send(set, true)).data.len() == 3,
        speed_write(told.to_send(set, true)).data[index] == (if index < told.speeds.len() {
            told.after(set).speeds[index] % 256
        } else {
            0
        }),
{
}

/// A device that was just found was told nothing, and every one of its vibrators
/// stands at 0, however many there are.
pub proof fn law_new_device_stands_still(count: nat)
    ensures
        !VibrationView::fresh(count).sent,
        VibrationView::fresh(count).speeds.len() == count,
        forall|i: int| 0 <= i < count ==> #[trigger] VibrationView::fresh(count).speeds[i] == 0,
{
}

/// A device has as many vibrators as its attributes count for vibration commands,
/// and none if they count none. Nothing else in the attributes matters.
pub proof fn law_attributes_count_the_vibrators(attributes: DeviceMessageAttributesMap)
    ensures
        attributes.vibrate_cmd is None ==> attributes.vibrators() == 0,
        attributes.vibrate_cmd matches Some(vibrate) ==> (vibrate.feature_count is None
            ==> attributes.vibrators() == 0),
        attributes.vibrate_cmd matches Some(vibrate) ==> (vibrate.feature_count matches Some(count)
            ==> attributes.vibrators() == count),
{
}

/// A command without speeds is refused as such. Any other is refused for the first
/// vibrator that it names and the device lacks, and accepted if there is none.
pub proof fn law_reason_of_a_refusal(set: Seq<VibrateSubcommand>, count: nat, k: int)
    ensures
        set.len() == 0 ==> refusal(set, count) == Some(ButtplugDeviceError::NoSubcommands),
        0 <= k < set.len() && set[k].index >= count && (forall|j: int|
            0 <= j < k ==> (#[trigger] set[j]).index < count) ==> refusal(set, count) == Some(
            ButtplugDeviceError::NoSuchFeature { index: set[k].index },
        ),
        set.len() > 0 && (forall|j: int| 0 <= j < set.len() ==> (#[trigger] set[j]).index < count)
            ==> refusal(set, count) is None,
{
    law_what_is_accepted(set, count);
    if 0 <= k < set.len() && set[k].index >= count && (forall|j: int|
        0 <= j < k ==> (#[trigger] set[j]).index < count) {
        lemma_first_bad(set, count, k, set.len() as int);
        assert(set.take(set.len() as int) =~= set);
    }
}

proof fn lemma_first_bad(set: Seq<VibrateSubcommand>, count: nat, k: int, upto: int)
    requires
        0 <= k < upto <= set.len(),
        set[k].index >= count,
        forall|j: int| 0 <= j < k ==> (#[trigger] set[j]).index < count,
    ensures
        first_without_feature(set.take(upto), count) == Some(set[k].index),
    decreases upto,
{
    assert(set.take(upto).drop_last() =~= set.take(upto - 1));
    if k < upto - 1 {
        lemma_first_bad(set, count, k, upto - 1);
    } else {
        let earlier = set.take(k);
        assert forall|j: int| 0 <= j < earlier.len() implies (#[trigger] earlier[j]).index
            < count by {
            assert(set[j].index < count);
        }
        lemma_first_without_feature(earlier, count);
    }
}

/// An accepted command is remembered: the device counts as told, it has as many
/// vibrators as before, and each stands at the last speed that the command gives it,
/// or where it stood if the command gives it none.
pub proof fn law_accepted_command_is_remembered(
    told: VibrationView,
    set: Seq<VibrateSubcommand>,
    index: int,
)
    requires
        set.len() > 0,
        forall|j: int| 0 <= j < set.len() ==> (#[trigger] set[j]).index < told.speeds.len(),
        0 <= index < told.speeds.len(),
    ensures
        told.after(set).sent,
        told.after(set).speeds.len() == told.speeds.len(),
        (forall|j: int| 0 <= j < set.len() ==> (#[trigger] set[j]).index != index) ==> told.after(
            set,
        ).speeds[index] == told.speeds[index],
        forall|k: int|
            0 <= k < set.len() && (#[trigger] set[k]).index == index && (forall|j: int|
                k < j < set.len() ==> (#[trigger] set[j]).index != index) ==> told.after(
                set,
            ).speeds[index] == set[k].speed,
{
    assert(all_have_features(set, told.speeds.len()));
    told.lemma_speeds_after_len(set);
    if forall|j: int| 0 <= j < set.len() ==> (#[trigger] set[j]).index != index {
        lemma_other_speeds(told, set, index);
    }
    assert forall|k: int|
        0 <= k < set.len() && (#[trigger] set[k]).index == index && (forall|j: int|
            k < j < set.len() ==> (#[trigger] set[j]).index != index) implies told.after(
        set,
    ).speeds[index] == set[k].speed by {
        lemma_last_speed(told, set, k);
    }
}

/// A command says something new of a vibrator exactly if it gives it some speed and
/// the device was told nothing yet, or if it gives it some speed that is not the one
/// it stands at.
pub proof fn law_news_is_a_speed_not_yet_told(
    told: VibrationView,
    set: Seq<VibrateSubcommand>,
    index: int,
)
    requires
        forall|j: int| 0 <= j < set.len() ==> (#[trigger] set[j]).index < told.speeds.len(),
        0 <= index < told.speeds.len(),
    ensures
        told.is_news(set, index) <==> exists|k: int|
            0 <= k < set.len() && (#[trigger] set[k]).index == index && (!told.sent
                || set[k].speed != told.speeds[index]),
{
    assert(all_have_features(set, told.speeds.len()));
    if exists|k: int|
        0 <= k < set.len() && (#[trigger] set[k]).index == index && (!told.sent || set[k].speed
            != told.speeds[index]) {
        let k = choose|k: int|
            0 <= k < set.len() && (#[trigger] set[k]).index == index && (!told.sent
                || set[k].speed != told.speeds[index]);
        if told.sent {
            lemma_first_difference(told, set, index, k);
        } else {
            assert(told.is_news(set, index));
        }
    } else if told.is_news(set, index) {
        let k = choose|k: int|
            0 <= k < set.len() && (#[trigger] set[k]).index == index && (!told.sent
                || told.speeds_after(set.take(k))[index] != set[k].speed);
        lemma_same_speed_so_far(told, set, index, k);
    }
}

/// A vibrator that is given no speed but the one it stands at stays there.
proof fn lemma_same_speed_so_far(
    told: VibrationView,
    set: Seq<VibrateSubcommand>,
    index: int,
    k: int,
)
    requires
        all_have_features(set, told.speeds.len()),
        0 <= index < told.speeds.len(),
        0 <= k <= set.len(),
        forall|j: int|
            0 <= j < k && (#[trigger] set[j]).index == index ==> set[j].speed
                == told.speeds[index],
    ensures
        told.speeds_after(set.take(k)).len() == told.speeds.len(),
        told.speeds_after(set.take(k))[index] == told.speeds[index],
    decreases k,
{
    if k > 0 {
        lemma_same_speed_so_far(told, set, index, k - 1);
        assert(set.take(k).drop_last() =~= set.take(k - 1));
        assert(set[k - 1].index < told.speeds.len());
    }
}

/// The first speed that differs from the one a vibrator stands at is news.
proof fn lemma_first_difference(
    told: VibrationView,
    set: Seq<VibrateSubcommand>,
    index: int,
    k: int,
)
    requires
        all_have_features(set, told.speeds.len()),
        0 <= index < told.speeds.len(),
        0 <= k < set.len(),
        set[k].index == index,
        set[k].speed != told.speeds[index],
    ensures
        told.is_news(set, index),
    decreases k,
{
    if exists|j: int|
        0 <= j < k && (#[trigger] set[j]).index == index && set[j].speed != told.speeds[index] {
        let j = choose|j: int|
            0 <= j < k && (#[trigger] set[j]).index == index && set[j].speed
                != told.speeds[index];
        lemma_first_difference(told, set, index, j);
    } else {
        lemma_same_speed_so_far(told, set, index, k);
    }
}

/// An accepted command has something to be sent exactly if the device was told
/// nothing yet or some speed of the command is not the one that its vibrator stands
/// at.
pub proof fn law_command_is_sent_for_any_news(told: VibrationView, set: Seq<VibrateSubcommand>)
    requires
        set.len() > 0,
        forall|j: int| 0 <= j < set.len() ==> (#[trigger] set[j]).index < told.speeds.len(),
    ensures
        told.has_news(set) <==> !told.sent || exists|k: int|
            0 <= k < set.len() && told.speeds[(#[trigger] set[k]).index as int] != set[k].speed,
{
    if told.has_news(set) {
        let index = choose|index: int|
            0 <= index < told.speeds.len() && #[trigger] told.is_news(set, index);
        law_news_is_a_speed_not_yet_told(told, set, index);
    }
    if !told.sent {
        assert(set[0].index < told.speeds.len());
        law_news_is_a_speed_not_yet_told(told, set, set[0].index as int);
    } else if exists|k: int|
        0 <= k < set.len() && told.speeds[(#[trigger] set[k]).index as int] != set[k].speed {
        let k = choose|k: int|
            0 <= k < set.len() && told.speeds[(#[trigger] set[k]).index as int] != set[k].speed;
        assert(set[k].index < told.speeds.len());
        law_news_is_a_speed_not_yet_told(told, set, set[k].index as int);
    }
}

/// What is handed out for a vibrator that a command names: the last speed that it
/// names, if all vibrators are to be sent, if the device was told nothing yet, or if
/// any speed that it names is not the one the vibrator stands at; otherwise nothing.
pub proof fn law_speed_handed_out_for_a_named_vibrator(
    told: VibrationView,
    set: Seq<VibrateSubcommand>,
    match_all: bool,
    last: int,
)
    requires
        forall|j: int| 0 <= j < set.len() ==> (#[trigger] set[j]).index < told.speeds.len(),
        0 <= last < set.len(),
        forall|j: int| last < j < set.len() ==> (#[trigger] set[j]).index != set[last].index,
    ensures
        ({
            let handed_out = told.to_send(set, match_all);
            let index = set[last].index as int;
            &&& handed_out.len() == told.speeds.len()
            &&& match_all || !told.sent || set[last].speed != told.speeds[index]
                ==> handed_out[index] == Some(set[last].speed)
            &&& (exists|k: int|
                0 <= k < set.len() && (#[trigger] set[k]).index == index && set[k].speed
                    != told.speeds[index]) ==> handed_out[index] == Some(set[last].speed)
            &&& !match_all && told.sent && (forall|k: int|
                0 <= k < set.len() && (#[trigger] set[k]).index == index ==> set[k].speed
                    == told.speeds[index]) ==> handed_out[index] is None
        }),
{
    let index = set[last].index as int;
    assert(all_have_features(set, told.speeds.len()));
    assert(set[last].index < told.speeds.len());
    lemma_last_speed(told, set, last);
    law_news_is_a_speed_not_yet_told(told, set, index);
}

/// What is handed out for a vibrator that a command does not name: the speed that it
/// stands at, if all vibrators are to be sent; otherwise nothing.
pub proof fn law_speed_handed_out_for_another_vibrator(
    told: VibrationView,
    set: Seq<VibrateSubcommand>,
    match_all: bool,
    index: int,
)
    requires
        forall|j: int| 0 <= j < set.len() ==> (#[trigger] set[j]).index < told.speeds.len(),
        0 <= index < told.speeds.len(),
        forall|j: int| 0 <= j < set.len() ==> (#[trigger] set[j]).index != index,
    ensures
        told.to_send(set, match_all).len() == told.speeds.len(),
        match_all ==> told.to_send(set, match_all)[index] == Some(told.speeds[index]),
        !match_all ==> told.to_send(set, match_all)[index] is None,
{
    assert(all_have_features(set, told.speeds.len()));
    lemma_other_speeds(told, set, index);
    law_news_is_a_speed_not_yet_told(told, set, index);
}

/// Whatever speeds are to be written, the write is three bytes to the endpoint for
/// commands, with no response asked for. Each byte is the low byte of the speed of
/// that vibrator, and 0 where there is no speed for it.
pub proof fn law_write_encodes_the_speeds(
    cmds: Seq<Option<u32>>,
    write: DeviceWriteCmd,
    index: int,
)
    requires
        write@ == speed_write(cmds),
        0 <= index < 3,
    ensures
        write.endpoint == Endpoint::Tx,
        !write.write_with_response,
        write.data@.len() == 3,
        index < cmds.len() && cmds[index] is Some ==> write.data@[index] == cmds[index]->0 % 256,
        index < cmds.len() && cmds[index] is None ==> write.data@[index] == 0,
        index >= cmds.len() ==> write.data@[index] == 0,
{
}

/// The write for an accepted command goes to the endpoint for commands and asks for
/// no response, whatever the speeds. For each of the three vibrators it holds the low
/// byte of the last speed that the command gives, of the speed that it stands at if
/// the command gives none, and 0 if the device has no such vibrator.
pub proof fn law_write_of_a_command(
    told: VibrationView,
    set: Seq<VibrateSubcommand>,
    write: DeviceWriteCmd,
    index: int,
)
    requires
        set.len() > 0,
        forall|j: int| 0 <= j < set.len() ==> (#[trigger] set[j]).index < told.speeds.len(),
        write@ == speed_write(told.to_send(set, true)),
        0 <= index < 3,
    ensures
        write.endpoint == Endpoint::Tx,
        !write.write_with_response,
        write.data@.len() == 3,
        index >= told.speeds.len() ==> write.data@[index] == 0,
        index < told.speeds.len() && (forall|j: int|
            0 <= j < set.len() ==> (#[trigger] set[j]).index != index) ==> write.data@[index]
            == told.speeds[index] % 256,
        forall|k: int|
            0 <= k < set.len() && (#[trigger] set[k]).index == index && (forall|j: int|
                k < j < set.len() ==> (#[trigger] set[j]).index != index) ==> write.data@[index]
                == set[k].speed % 256,
{
    law_write_encodes_the_speeds(told.to_send(set, true), write, index);
    if index < told.speeds.len() {
        law_accepted_command_is_remembered(told, set, index);
        if forall|j: int| 0 <= j < set.len() ==> (#[trigger] set[j]).index != index {
            law_speed_handed_out_for_another_vibrator(told, set, true, index);
        }
        assert forall|k: int|
            0 <= k < set.len() && (#[trigger] set[k]).index == index && (forall|j: int|
                k < j < set.len() ==> (#[trigger] set[j]).index != index) implies write.data@[index]
            == set[k].speed % 256 by {
            law_speed_handed_out_for_a_named_vibrator(told, set, true, k);
        }
    }
}

/// The first accepted command to a new device is always written: for each of the
/// three vibrators the low byte of the last speed that it gives, and 0 for each that
/// it does not name.
pub proof fn law_first_write_to_a_new_device(
    count: nat,
    set: Seq<VibrateSubcommand>,
    write: DeviceWriteCmd,
    index: int,
)
    requires
        set.len() > 0,
        forall|j: int| 0 <= j < set.len() ==> (#[trigger] set[j]).index < count,
        write@ == speed_write(VibrationView::fresh(count).to_send(set, true)),
        0 <= index < 3,
    ensures
        VibrationView::fresh(count).has_news(set),
        write.endpoint == Endpoint::Tx,
        !write.write_with_response,
        write.data@.len() == 3,
        (forall|j: int| 0 <= j < set.len() ==> (#[trigger] set[j]).index != index)
            ==> write.data@[index] == 0,
        forall|k: int|
            0 <= k < set.len() && (#[trigger] set[k]).index == index && (forall|j: int|
                k < j < set.len() ==> (#[trigger] set[j]).index != index) ==> write.data@[index]
                == set[k].speed % 256,
{
    let told = VibrationView::fresh(count);
    law_new_device_stands_still(count);
    law_command_is_sent_for_any_news(told, set);
    law_write_of_a_command(told, set, write, index);
}

/// The commands that stop a device: none if it has no vibrators, otherwise one, which
/// gives each vibrator, in turn and once, speed 0.
pub proof fn law_stop_commands_name_every_vibrator(
    count: nat,
    commands: Seq<ButtplugDeviceCommandMessageUnion>,
)
    requires
        count <= u32::MAX,
        commands_view(commands) == stop_commands(count),
    ensures
        count == 0 ==> commands.len() == 0,
        count > 0 ==> commands.len() == 1,
        count > 0 ==> (commands[0] matches ButtplugDeviceCommandMessageUnion::VibrateCmd(command)
            && command.device_index == 0 && command.speeds@.len() == count && forall|i: int|
            0 <= i < count ==> (#[trigger] command.speeds@[i]).index == i
                && command.speeds@[i].speed == 0),
{
    assert(commands.len() == commands_view(commands).len());
    if count > 0 {
        assert(commands_view(commands)[0] == commands[0]@);
        let command = commands[0]->VibrateCmd_0;
        assert(command.speeds@ == stop_speeds(count));
    }
}

/// A sequence of commands and its view have the same commands in the same order,
/// each for the same device and with the same speeds.
pub proof fn law_commands_are_as_viewed(
    commands: Seq<ButtplugDeviceCommandMessageUnion>,
    i: int,
)
    requires
        0 <= i < commands.len(),
    ensures
        commands_view(commands).len() == commands.len(),
        commands[i] matches ButtplugDeviceCommandMessageUnion::VibrateCmd(command)
            ==> commands_view(commands)[i] == (DeviceCommandView::VibrateCmd {
            device_index: command.device_index,
            speeds: command.speeds@,
        }),
{
}

/// A write and its view agree on endpoint, bytes and response.
pub proof fn law_write_is_as_viewed(write: DeviceWriteCmd)
    ensures
        write@.endpoint == write.endpoint,
        write@.data == write.data@,
        write@.write_with_response == write.write_with_response,
{
}

/// A command that gives every vibrator speed 0, in turn, is accepted by a device that
/// has vibrators. It is written as three bytes of 0 if the device was told nothing
/// yet, as a new one was not, or if some vibrator does not stand at 0; otherwise it is
/// not written. Afterwards all stand at 0.
pub proof fn law_all_zero_command_stops(
    told: VibrationView,
    set: Seq<VibrateSubcommand>,
    write: DeviceWriteCmd,
)
    requires
        set.len() > 0,
        set.len() == told.speeds.len(),
        forall|i: int|
            0 <= i < set.len() ==> (#[trigger] set[i]).index == i && set[i].speed == 0,
        write@ == speed_write(told.to_send(set, true)),
    ensures
        refusal(set, told.speeds.len()) is None,
        VibrationView::fresh(set.len()).has_news(set),
        told.has_news(set) <==> !told.sent || exists|i: int|
            0 <= i < told.speeds.len() && #[trigger] told.speeds[i] != 0,
        write.data@ == seq![0u8, 0u8, 0u8],
        write.endpoint == Endpoint::Tx,
        !write.write_with_response,
        told.after(set).speeds.len() == told.speeds.len(),
        forall|i: int|
            0 <= i < told.speeds.len() ==> #[trigger] told.after(set).speeds[i] == 0,
{
    let count = told.speeds.len();
    law_reason_of_a_refusal(set, count, 0);
    law_new_device_stands_still(count);
    law_command_is_sent_for_any_news(VibrationView::fresh(count), set);
    law_command_is_sent_for_any_news(told, set);
    if exists|i: int| 0 <= i < count && #[trigger] told.speeds[i] != 0 {
        let i = choose|i: int| 0 <= i < count && #[trigger] told.speeds[i] != 0;
        assert(told.speeds[set[i].index as int] != set[i].speed);
    }
    assert forall|i: int| 0 <= i < count implies #[trigger] told.after(set).speeds[i] == 0 by {
        law_accepted_command_is_remembered(told, set, i);
        assert(set[i].index == i);
    }
    law_accepted_command_is_remembered(told, set, 0);
    assert forall|i: int| 0 <= i < 3 implies #[trigger] write.data@[i] == 0 by {
        law_write_of_a_command(told, set, write, i);
        if i < count {
            assert(set[i].index == i);
        }
    }
    law_write_of_a_command(told, set, write, 0);
    assert(write.data@ =~= seq![0u8, 0u8, 0u8]);
}

} // verus!
