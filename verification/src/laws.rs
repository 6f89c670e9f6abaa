//! What holds of every enumeration and of every write, proved from the
//! definitions of the other modules.

use vstd::prelude::*;
use crate::display::{reportable, usable_model_name, IdentityModel, RecordModel, FEATURE_CODE};
use crate::enumerator::{advance, well_named, EnumeratorModel, EventModel, ProbeAction};
use crate::setter::{
    has_match, is_first_match, lemma_match_has_first, lemma_no_match_no_first, SetErrorModel,
};
use crate::simulation::{
    after_set, device_keys, emitted, enumerated, gone_through, records_of, set_result, target,
    with_level, ChannelModel, DeviceModel,
};

verus! {

/// The state after the caller has dealt with one display: it reports the
/// identity, and where a read is asked for, what the read returned.
pub open spec fn probed(state: EnumeratorModel, display: DeviceModel) -> EnumeratorModel {
    let identified = advance(
        state,
        EventModel::Identified { refreshed: display.refreshes, identity: display.identity },
    );
    match identified.1 {
        ProbeAction::ReadFeature(_) => advance(
            identified.0,
            if display.readable {
                EventModel::BrightnessRead(display.level)
            } else {
                EventModel::ReadFailed
            },
        ).0,
        _ => identified.0,
    }
}

/// The records of two runs of displays, one after the other, are the records
/// of the first followed by the records of the second.
pub proof fn lemma_records_of_concat(first: Seq<DeviceModel>, second: Seq<DeviceModel>)
    ensures
        records_of(first + second) == records_of(first) + records_of(second),
    decreases second.len(),
{
    if second.len() == 0 {
        assert(first + second =~= first);
        assert(records_of(first) + records_of(second) =~= records_of(first));
    } else {
        lemma_records_of_concat(first, second.drop_last());
        assert((first + second).drop_last() =~= first + second.drop_last());
        assert((first + second).last() == second.last());
        match emitted(second.last()) {
            Some(record) => {
                assert((records_of(first) + records_of(second.drop_last())).push(record)
                    =~= records_of(first) + records_of(second.drop_last()).push(record));
            },
            None => {},
        }
    }
}

/// The records of a single display: what it contributes.
pub proof fn lemma_records_of_one(display: DeviceModel)
    ensures
        records_of(seq![display]) == match emitted(display) {
            Some(record) => seq![record],
            None => Seq::<RecordModel>::empty(),
        },
{
    let one = seq![display];
    assert(one.drop_last() =~= Seq::<DeviceModel>::empty());
    assert(one.last() == display);
    assert(records_of(one.drop_last()) =~= Seq::<RecordModel>::empty());
    match emitted(display) {
        Some(record) => {
            assert(Seq::<RecordModel>::empty().push(record) =~= seq![record]);
        },
        None => {},
    }
}

/// A display that contributes no record can be taken out of the channel
/// without any change to the enumeration, wherever it stands.
proof fn lemma_silent_display(
    before: Seq<DeviceModel>,
    display: DeviceModel,
    after: Seq<DeviceModel>,
)
    requires
        emitted(display) is None,
    ensures
        records_of(before + seq![display] + after) == records_of(before) + records_of(after),
{
    lemma_records_of_concat(before + seq![display], after);
    lemma_records_of_concat(before, seq![display]);
    lemma_records_of_one(display);
    assert(records_of(before) + Seq::<RecordModel>::empty() =~= records_of(before));
}

/// A display that contributes a record contributes it at its own place: after
/// the records of the displays before it and before those of the displays
/// after it.
proof fn lemma_speaking_display(
    before: Seq<DeviceModel>,
    display: DeviceModel,
    after: Seq<DeviceModel>,
)
    requires
        emitted(display) is Some,
    ensures
        records_of(before + seq![display] + after) == records_of(before) + seq![
            emitted(display)->0,
        ] + records_of(after),
{
    lemma_records_of_concat(before + seq![display], after);
    lemma_records_of_concat(before, seq![display]);
    lemma_records_of_one(display);
}

/// A display without a usable identity never appears in an enumeration: where
/// its model name or its vendor identifier is missing or empty, or its model
/// name is the placeholder, the enumeration is the one of the channel without
/// that display, whatever its refresh and its brightness read do.
pub proof fn lemma_unreportable_is_not_listed(
    before: Seq<DeviceModel>,
    display: DeviceModel,
    after: Seq<DeviceModel>,
)
    requires
        !reportable(display.identity),
    ensures
        records_of(before + seq![display] + after) == records_of(before) + records_of(after),
{
    lemma_silent_display(before, display, after);
}

/// Every record of an enumeration comes from a display that is reportable and
/// whose brightness was read: the display at the returned position has a
/// non-empty model name other than the placeholder and a non-empty vendor
/// identifier, and the record holds its key, its model name and its level.
pub proof fn lemma_listed_is_reportable(displays: Seq<DeviceModel>, position: int) -> (source: int)
    requires
        0 <= position < records_of(displays).len(),
    ensures
        0 <= source < displays.len(),
        reportable(displays[source].identity),
        displays[source].readable,
        records_of(displays)[position] == (RecordModel {
            id: displays[source].identity.id,
            name: displays[source].identity.model_name->0,
            brightness: displays[source].level,
        }),
        usable_model_name(records_of(displays)[position].name),
        displays[source].identity.manufacturer_id->0.len() > 0,
    decreases displays.len(),
{
    let earlier = records_of(displays.drop_last());
    if position < earlier.len() {
        lemma_listed_is_reportable(displays.drop_last(), position)
    } else {
        displays.len() - 1
    }
}

/// A failed capability refresh does not keep a display out of an enumeration:
/// where its identity is reportable and its brightness can be read, its record
/// stands at its place.
pub proof fn lemma_failed_refresh_is_still_listed(
    before: Seq<DeviceModel>,
    display: DeviceModel,
    after: Seq<DeviceModel>,
)
    requires
        !display.refreshes,
        reportable(display.identity),
        display.readable,
    ensures
        records_of(before + seq![display] + after) == records_of(before) + seq![
            (RecordModel {
                id: display.identity.id,
                name: display.identity.model_name->0,
                brightness: display.level,
            }),
        ] + records_of(after),
{
    lemma_speaking_display(before, display, after);
}

/// A display whose brightness read fails never appears in an enumeration,
/// whatever its identity and whatever its capability refresh does.
pub proof fn lemma_unreadable_is_not_listed(
    before: Seq<DeviceModel>,
    display: DeviceModel,
    after: Seq<DeviceModel>,
)
    requires
        !display.readable,
    ensures
        records_of(before + seq![display] + after) == records_of(before) + records_of(after),
{
    lemma_silent_display(before, display, after);
}

/// Setting the brightness for a key that no connected display has fails with
/// `DisplayNotFound`, never with a failed write, and changes no display.
pub proof fn lemma_unknown_key_is_not_found(channel: ChannelModel, id: Seq<char>, value: u16)
    requires
        !has_match(device_keys(channel.displays), id),
    ensures
        set_result(channel, id) == Err::<(), SetErrorModel>(SetErrorModel::DisplayNotFound),
        after_set(channel, id, value) == channel,
{
    lemma_no_match_no_first(device_keys(channel.displays), id);
}

/// Setting the brightness for a key that some connected display has is never
/// answered with `DisplayNotFound`: the write is attempted, on the first
/// display with that key.
pub proof fn lemma_known_key_is_found(channel: ChannelModel, id: Seq<char>) -> (index: int)
    requires
        channel.fault is None,
        has_match(device_keys(channel.displays), id),
    ensures
        target(channel, id) == Some(index),
        is_first_match(device_keys(channel.displays), id, index),
        set_result(channel, id) != Err::<(), SetErrorModel>(SetErrorModel::DisplayNotFound),
{
    lemma_match_has_first(device_keys(channel.displays), id)
}

/// A brightness that was set is the brightness that the next enumeration
/// shows: where the write went through, and the display it was addressed to
/// is reportable and can be read, the enumeration of the channel after the
/// write holds, at the returned position, a record with the key that was
/// asked for and the value that was written.
pub proof fn lemma_set_then_list(
    channel: ChannelModel,
    id: Seq<char>,
    value: u16,
) -> (position: int)
    requires
        set_result(channel, id) is Ok,
        reportable(channel.displays[target(channel, id)->0].identity),
        channel.displays[target(channel, id)->0].readable,
    ensures
        enumerated(after_set(channel, id, value)) is Ok,
        0 <= position < enumerated(after_set(channel, id, value))->Ok_0.len(),
        enumerated(after_set(channel, id, value))->Ok_0[position] == (RecordModel {
            id,
            name: channel.displays[target(channel, id)->0].identity.model_name->0,
            brightness: value,
        }),
{
    let index = target(channel, id)->0;
    let keys = device_keys(channel.displays);
    assert(is_first_match(keys, id, index));
    let written = with_level(channel.displays[index], value);
    let before = channel.displays.take(index);
    let after = channel.displays.skip(index + 1);
    assert(after_set(channel, id, value).displays =~= before + seq![written] + after);
    lemma_speaking_display(before, written, after);
    assert(keys[index] == channel.displays[index].identity.id);
    records_of(before).len() as int
}

/// A write changes the display it is addressed to and no other.
pub proof fn lemma_set_touches_one_display(
    channel: ChannelModel,
    id: Seq<char>,
    value: u16,
    other: int,
)
    requires
        0 <= other < channel.displays.len(),
        target(channel, id) != Some(other),
    ensures
        after_set(channel, id, value).displays.len() == channel.displays.len(),
        after_set(channel, id, value).displays[other] == channel.displays[other],
{
    match target(channel, id) {
        Some(index) => {
            assert(is_first_match(device_keys(channel.displays), id, index));
        },
        None => {},
    }
}

/// The machine leaves out a display without a usable identity: it asks for no
/// read and keeps the records as they are, whether or not the refresh
/// succeeded.
pub proof fn lemma_unreportable_is_skipped(
    state: EnumeratorModel,
    refreshed: bool,
    identity: IdentityModel,
)
    requires
        state.fault is None,
        !reportable(identity),
    ensures
        advance(state, (EventModel::Identified { refreshed, identity })).1
            == ProbeAction::NextDisplay,
        advance(state, (EventModel::Identified { refreshed, identity })).0.records == state.records,
{
}

/// The machine decides on the identity alone: whether the capability refresh
/// succeeded makes no difference to the next state or to what is asked.
pub proof fn lemma_refresh_outcome_is_ignored(state: EnumeratorModel, identity: IdentityModel)
    ensures
        advance(state, (EventModel::Identified { refreshed: false, identity })) == advance(
            state,
            (EventModel::Identified { refreshed: true, identity }),
        ),
{
}

/// The machine reads the brightness feature, and no other, of every
/// reportable display.
pub proof fn lemma_reportable_is_read(
    state: EnumeratorModel,
    refreshed: bool,
    identity: IdentityModel,
)
    requires
        state.fault is None,
        reportable(identity),
    ensures
        advance(state, (EventModel::Identified { refreshed, identity })).1
            == ProbeAction::ReadFeature(FEATURE_CODE),
        advance(state, (EventModel::Identified { refreshed, identity })).1
            == ProbeAction::ReadFeature(0x10),
{
}

/// A failed read adds no record.
pub proof fn lemma_failed_read_adds_nothing(state: EnumeratorModel)
    ensures
        advance(state, EventModel::ReadFailed).0.records == state.records,
        advance(state, EventModel::ReadFailed).1 != ProbeAction::ReadFeature(FEATURE_CODE),
{
}

/// Whatever the caller reports, and in whatever order, every record of the
/// machine keeps a model name that is non-empty and not the placeholder.
pub proof fn lemma_machine_keeps_names(state: EnumeratorModel, event: EventModel)
    requires
        well_named(state),
    ensures
        well_named(advance(state, event).0),
{
}

/// Dealing with one display through the machine appends what that display
/// contributes, and nothing else.
pub proof fn lemma_probe_appends(displays: Seq<DeviceModel>, display: DeviceModel)
    ensures
        probed(gone_through(displays), display) == gone_through(displays.push(display)),
{
    let longer = displays.push(display);
    assert(longer.drop_last() =~= displays);
    assert(longer.last() == display);
}

} // verus!
