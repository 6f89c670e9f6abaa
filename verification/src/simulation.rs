//! A channel in memory: displays whose answers are fixed in advance.
//!
//! It answers as a real channel may: a capability refresh can fail, a
//! brightness read can fail, a write can be refused, and the channel as a
//! whole can be unable to say which displays are connected. A write that goes
//! through changes what later reads return. Enumerating and setting on it are
//! driven through the same machine and the same plan that drive a real
//! channel.

use vstd::prelude::*;
use crate::display::{reportable, listing, DisplayIdentity, DisplayInfo, IdentityModel, RecordModel};
use crate::enumerator::{
    candidate_of, record_of, Enumerator, EnumeratorModel, ProbeAction, ProbeEvent,
};
use crate::setter::{
    conclude_write, first_match, keys, lemma_first_match_is_unique, lemma_no_match_no_first,
    plan_write, SetBrightnessError, SetErrorModel,
};

verus! {

/// A display with fixed answers.
#[derive(Debug, Clone, PartialEq, Eq)]
pub struct SimulatedDisplay {
    /// Identity that is available once a capability refresh was attempted.
    pub identity: DisplayIdentity,
    /// Whether a capability refresh succeeds.
    pub refreshes: bool,
    /// Whether a brightness read succeeds.
    pub readable: bool,
    /// Brightness that a successful read returns.
    pub level: u16,
    /// The words with which a write is refused; `None` where writes go through.
    pub write_fault: Option<String>,
}

/// Mathematical value of a [`SimulatedDisplay`].
pub struct DeviceModel {
    pub identity: IdentityModel,
    pub refreshes: bool,
    pub readable: bool,
    pub level: u16,
    pub write_fault: Option<Seq<char>>,
}

impl View for SimulatedDisplay {
    type V = DeviceModel;

    open spec fn view(&self) -> DeviceModel {
        DeviceModel {
            identity: self.identity@,
            refreshes: self.refreshes,
            readable: self.readable,
            level: self.level,
            write_fault: match self.write_fault {
                Some(detail) => Some(detail@),
                None => None,
            },
        }
    }
}

/// A channel with fixed answers.
#[derive(Debug, Clone, PartialEq, Eq)]
pub struct SimulatedChannel {
    /// The words with which the channel fails to say which displays are
    /// connected; `None` where it can.
    pub fault: Option<String>,
    /// The connected displays, in enumeration order.
    pub displays: Vec<SimulatedDisplay>,
}

/// Mathematical value of a [`SimulatedChannel`].
pub struct ChannelModel {
    pub fault: Option<Seq<char>>,
    pub displays: Seq<DeviceModel>,
}

/// The values of a list of displays, in order.
pub open spec fn devices(displays: Seq<SimulatedDisplay>) -> Seq<DeviceModel> {
    Seq::new(displays.len(), |i: int| displays[i]@)
}

impl View for SimulatedChannel {
    type V = ChannelModel;

    open spec fn view(&self) -> ChannelModel {
        ChannelModel {
            fault: match self.fault {
                Some(detail) => Some(detail@),
                None => None,
            },
            displays: devices(self.displays@),
        }
    }
}

/// The record that a display contributes to an enumeration: one where it is
/// reportable and its brightness can be read, none otherwise. Whether its
/// capability refresh succeeds plays no part.
pub open spec fn emitted(device: DeviceModel) -> Option<RecordModel> {
    if reportable(device.identity) && device.readable {
        Some(record_of(candidate_of(device.identity), device.level))
    } else {
        None
    }
}

/// The records of a sequence of displays: what each contributes, in the order
/// of the displays.
pub open spec fn records_of(displays: Seq<DeviceModel>) -> Seq<RecordModel>
    decreases displays.len(),
{
    if displays.len() == 0 {
        Seq::empty()
    } else {
        let earlier = records_of(displays.drop_last());
        match emitted(displays.last()) {
            Some(record) => earlier.push(record),
            None => earlier,
        }
    }
}

/// What enumerating a channel returns.
pub open spec fn enumerated(channel: ChannelModel) -> Result<Seq<RecordModel>, Seq<char>> {
    match channel.fault {
        Some(detail) => Err(detail),
        None => Ok(records_of(channel.displays)),
    }
}

/// The keys of a sequence of displays, in order.
pub open spec fn device_keys(displays: Seq<DeviceModel>) -> Seq<Seq<char>> {
    Seq::new(displays.len(), |i: int| displays[i].identity.id)
}

/// The display that a write to the key `id` is addressed to: the first with
/// that key. A channel that cannot say which displays are connected has none.
pub open spec fn target(channel: ChannelModel, id: Seq<char>) -> Option<int> {
    if channel.fault is Some {
        None
    } else {
        first_match(device_keys(channel.displays), id)
    }
}

/// What setting the brightness of the display with the key `id` returns.
pub open spec fn set_result(channel: ChannelModel, id: Seq<char>) -> Result<(), SetErrorModel> {
    match target(channel, id) {
        None => Err(SetErrorModel::DisplayNotFound),
        Some(index) => match channel.displays[index].write_fault {
            Some(detail) => Err(SetErrorModel::WriteFailed(detail)),
            None => Ok(()),
        },
    }
}

/// A display after a write of `value` went through.
pub open spec fn with_level(device: DeviceModel, value: u16) -> DeviceModel {
    DeviceModel { level: value, ..device }
}

/// The channel after setting the brightness of the display with the key `id`
/// to `value`: the addressed display holds the value where the write goes
/// through, and nothing changes otherwise.
pub open spec fn after_set(channel: ChannelModel, id: Seq<char>, value: u16) -> ChannelModel {
    match target(channel, id) {
        Some(index) if channel.displays[index].write_fault is None => ChannelModel {
            fault: channel.fault,
            displays: channel.displays.update(index, with_level(channel.displays[index], value)),
        },
        _ => channel,
    }
}

/// The state of an enumeration that has gone through `displays` and through
/// nothing else.
pub open spec fn gone_through(displays: Seq<DeviceModel>) -> EnumeratorModel {
    EnumeratorModel { records: records_of(displays), pending: None, fault: None }
}

impl SimulatedDisplay {
    /// Attempts a capability refresh and says whether it succeeded.
    pub fn refresh(&self) -> (refreshed: bool)
        ensures
            refreshed == self@.refreshes,
    {
        self.refreshes
    }

    /// Reads the brightness: the level where the display can be read.
    pub fn read_brightness(&self) -> (reading: Option<u16>)
        ensures
            reading == (if self@.readable {
                Some(self@.level)
            } else {
                None::<u16>
            }),
    {
        if self.readable {
            Some(self.level)
        } else {
            None
        }
    }

    /// Writes the brightness: the display holds `value` afterwards where it
    /// takes writes, and is unchanged, with its refusal returned, where it
    /// does not.
    pub fn write_brightness(&mut self, value: u16) -> (answer: Result<(), String>)
        ensures
            match old(self)@.write_fault {
                None => answer is Ok && final(self)@ == with_level(old(self)@, value),
                Some(detail) => answer matches Err(words) && words@ == detail && final(self)@
                    == old(self)@,
            },
    {
        match &self.write_fault {
            Some(detail) => Err(detail.clone()),
            None => {
                self.level = value;
                Ok(())
            },
        }
    }
}

impl SimulatedChannel {
    /// The keys of the connected displays, in enumeration order.
    pub fn display_keys(&self) -> (ids: Vec<String>)
        ensures
            keys(ids@) == device_keys(self@.displays),
    {
        let mut ids: Vec<String> = Vec::new();
        let mut index: usize = 0;
        while index < self.displays.len()
            invariant
                index <= self.displays.len(),
                ids.len() == index,
                forall|j: int| 0 <= j < index ==> ids[j]@ == self.displays[j].identity.id@,
            decreases self.displays.len() - index,
        {
            ids.push(self.displays[index].identity.id.clone());
            index += 1;
        }
        assert(keys(ids@) =~= device_keys(self@.displays));
        ids
    }

    /// Enumerates the displays of this channel: one record for each display
    /// that is reportable and whose brightness can be read, in enumeration
    /// order; the channel's fault where it cannot say which displays are
    /// connected.
    pub fn list_displays(&self) -> (outcome: Result<Vec<DisplayInfo>, String>)
        ensures
            match outcome {
                Ok(records) => enumerated(self@) == Ok::<Seq<RecordModel>, Seq<char>>(
                    listing(records@),
                ),
                Err(detail) => enumerated(self@) == Err::<Seq<RecordModel>, Seq<char>>(detail@),
            },
    {
        let mut machine = Enumerator::new();
        if let Some(detail) = &self.fault {
            let (failed, _) = machine.step(ProbeEvent::Unavailable(detail.clone()));
            return failed.finish();
        }
        assert(self@.displays.take(0) =~= Seq::empty());
        let mut index: usize = 0;
        while index < self.displays.len()
            invariant
                index <= self.displays.len(),
                self@.fault is None,
                machine@ == gone_through(self@.displays.take(index as int)),
            decreases self.displays.len() - index,
        {
            let display = &self.displays[index];
            let ghost seen = self@.displays.take(index as int);
            proof {
                let upto = self@.displays.take(index as int + 1);
                assert(upto.drop_last() =~= seen);
                assert(upto.last() == display@);
            }
            let event = ProbeEvent::Identified {
                refreshed: display.refresh(),
                identity: display.identity.duplicate(),
            };
            let (identified, action) = machine.step(event);
            machine = identified;
            match action {
                ProbeAction::ReadFeature(_) => {
                    let answer = match display.read_brightness() {
                        Some(value) => ProbeEvent::BrightnessRead(value),
                        None => ProbeEvent::ReadFailed,
                    };
                    let (read, _) = machine.step(answer);
                    machine = read;
                },
                _ => {},
            }
            index += 1;
        }
        assert(self@.displays.take(index as int) =~= self@.displays);
        machine.finish()
    }

    /// Sets the brightness of the first display with the key `id` to `value`.
    /// Fails with `DisplayNotFound` where no connected display has that key,
    /// and with `WriteFailed` where the display refuses the write; in both
    /// cases no display changes.
    pub fn set_brightness(
        &mut self,
        id: &str,
        value: u16,
    ) -> (result: Result<(), SetBrightnessError>)
        ensures
            match result {
                Ok(_) => set_result(old(self)@, id@) is Ok,
                Err(error) => set_result(old(self)@, id@) == Err::<(), SetErrorModel>(error@),
            },
            final(self)@ == after_set(old(self)@, id@, value),
    {
        if self.fault.is_some() {
            return Err(SetBrightnessError::DisplayNotFound);
        }
        let ids = self.display_keys();
        match plan_write(&ids, id, value) {
            Err(error) => {
                proof {
                    lemma_no_match_no_first(keys(ids@), id@);
                }
                Err(error)
            },
            Ok(request) => {
                proof {
                    lemma_first_match_is_unique(keys(ids@), id@, request.index as int);
                }
                let ghost before = self@;
                let answer = self.displays[request.index].write_brightness(request.value);
                assert(self@.displays =~= before.displays.update(
                    request.index as int,
                    self.displays[request.index as int]@,
                ));
                assert(before.displays.update(
                    request.index as int,
                    before.displays[request.index as int],
                ) =~= before.displays);
                assert(self@.fault == before.fault);
                conclude_write(answer)
            },
        }
    }
}

} // verus!
