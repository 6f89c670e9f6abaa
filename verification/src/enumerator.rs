//! The display enumerator, as a machine that the caller drives.
//!
//! The caller owns the channel. For every connected display it attempts a
//! capability refresh and reports the identity that is available afterwards;
//! the machine answers whether the brightness of that display is to be read.
//! The outcome of that read is reported in turn. Nothing that goes wrong with
//! one display ends the enumeration: such a display is left out. Only a
//! channel that cannot tell which displays are connected makes the whole
//! enumeration fail.

use vstd::prelude::*;
use crate::display::{
    reportable, usable_model_name, listing, DisplayIdentity, DisplayInfo, IdentityModel,
    RecordModel, FEATURE_CODE,
};

verus! {

/// What the caller reports to the enumerator.
#[derive(Debug, Clone, PartialEq, Eq)]
pub enum ProbeEvent {
    /// The set of connected displays could not be obtained.
    Unavailable(String),
    /// The next display, with the identity that is available after the attempt
    /// to refresh its capabilities. `refreshed` says whether that attempt
    /// succeeded; a stale identity counts like a fresh one.
    Identified { refreshed: bool, identity: DisplayIdentity },
    /// The brightness read that the enumerator asked for returned this value.
    BrightnessRead(u16),
    /// The brightness read that the enumerator asked for failed.
    ReadFailed,
}

/// Mathematical value of a [`ProbeEvent`].
pub enum EventModel {
    Unavailable(Seq<char>),
    Identified { refreshed: bool, identity: IdentityModel },
    BrightnessRead(u16),
    ReadFailed,
}

impl View for ProbeEvent {
    type V = EventModel;

    open spec fn view(&self) -> EventModel {
        match *self {
            ProbeEvent::Unavailable(detail) => EventModel::Unavailable(detail@),
            ProbeEvent::Identified { refreshed, identity } => EventModel::Identified {
                refreshed,
                identity: identity@,
            },
            ProbeEvent::BrightnessRead(value) => EventModel::BrightnessRead(value),
            ProbeEvent::ReadFailed => EventModel::ReadFailed,
        }
    }
}

/// What the caller is to do next.
#[derive(Debug, Clone, Copy, PartialEq, Eq, Structural)]
pub enum ProbeAction {
    /// Read the feature with this code from the display just identified, and
    /// report the outcome.
    ReadFeature(u8),
    /// Go on to the next display, or finish when there is none.
    NextDisplay,
    /// The enumeration has failed: finish.
    Stop,
}

/// A display that passed the identity filter and waits for its brightness.
pub struct CandidateModel {
    pub id: Seq<char>,
    pub name: Seq<char>,
}

struct Candidate {
    id: String,
    name: String,
}

/// State of an enumeration: the records so far in the order of discovery, the
/// display whose brightness is being read, and the channel fault, if any.
pub struct EnumeratorModel {
    pub records: Seq<RecordModel>,
    pub pending: Option<CandidateModel>,
    pub fault: Option<Seq<char>>,
}

/// The candidate that a reportable identity gives.
pub open spec fn candidate_of(identity: IdentityModel) -> CandidateModel {
    CandidateModel { id: identity.id, name: identity.model_name->0 }
}

/// The record of a candidate whose brightness was read.
pub open spec fn record_of(candidate: CandidateModel, brightness: u16) -> RecordModel {
    RecordModel { id: candidate.id, name: candidate.name, brightness }
}

/// State before the first event.
pub open spec fn initial() -> EnumeratorModel {
    EnumeratorModel { records: Seq::empty(), pending: None, fault: None }
}

/// One step of the enumeration: the state after `event`, and what the caller
/// is to do next.
pub open spec fn advance(state: EnumeratorModel, event: EventModel) -> (
    EnumeratorModel,
    ProbeAction,
) {
    if state.fault is Some {
        (state, ProbeAction::Stop)
    } else {
        match event {
            EventModel::Unavailable(detail) => (
                EnumeratorModel { records: state.records, pending: None, fault: Some(detail) },
                ProbeAction::Stop,
            ),
            EventModel::Identified { refreshed, identity } => if reportable(identity) {
                (
                    EnumeratorModel {
                        records: state.records,
                        pending: Some(candidate_of(identity)),
                        fault: None,
                    },
                    ProbeAction::ReadFeature(FEATURE_CODE),
                )
            } else {
                (
                    EnumeratorModel { records: state.records, pending: None, fault: None },
                    ProbeAction::NextDisplay,
                )
            },
            EventModel::BrightnessRead(value) => match state.pending {
                Some(candidate) => (
                    EnumeratorModel {
                        records: state.records.push(record_of(candidate, value)),
                        pending: None,
                        fault: None,
                    },
                    ProbeAction::NextDisplay,
                ),
                None => (state, ProbeAction::NextDisplay),
            },
            EventModel::ReadFailed => (
                EnumeratorModel { records: state.records, pending: None, fault: None },
                ProbeAction::NextDisplay,
            ),
        }
    }
}

/// What an enumeration that ends in `state` returns: the channel fault where
/// there is one, the records otherwise.
pub open spec fn conclusion(state: EnumeratorModel) -> Result<Seq<RecordModel>, Seq<char>> {
    match state.fault {
        Some(detail) => Err(detail),
        None => Ok(state.records),
    }
}

/// Every record, and the display that waits for its brightness, has a model
/// name that names a real product.
pub open spec fn well_named(state: EnumeratorModel) -> bool {
    &&& forall|i: int|
        0 <= i < state.records.len() ==> usable_model_name(#[trigger] state.records[i].name)
    &&& state.pending matches Some(candidate) ==> usable_model_name(candidate.name)
}

/// An enumeration in progress.
pub struct Enumerator {
    records: Vec<DisplayInfo>,
    pending: Option<Candidate>,
    fault: Option<String>,
}

impl View for Enumerator {
    type V = EnumeratorModel;

    closed spec fn view(&self) -> EnumeratorModel {
        EnumeratorModel {
            records: listing(self.records@),
            pending: match self.pending {
                Some(candidate) => Some(
                    CandidateModel { id: candidate.id@, name: candidate.name@ },
                ),
                None => None,
            },
            fault: match self.fault {
                Some(detail) => Some(detail@),
                None => None,
            },
        }
    }
}

impl Enumerator {
    #[verifier::type_invariant]
    spec fn names_are_usable(self) -> bool {
        well_named(self@)
    }

    /// Starts an enumeration.
    pub fn new() -> (fresh: Enumerator)
        ensures
            fresh@ == initial(),
    {
        let fresh = Enumerator { records: Vec::new(), pending: None, fault: None };
        assert(fresh@.records =~= Seq::empty());
        fresh
    }

    /// Takes one event and says what the caller is to do next.
    pub fn step(self, event: ProbeEvent) -> (next: (Enumerator, ProbeAction))
        ensures
            (next.0@, next.1) == advance(self@, event@),
            well_named(next.0@),
    {
        proof {
            use_type_invariant(&self);
        }
        let ghost before = self@;
        let Enumerator { records, pending, fault } = self;
        assert(listing(records@) == before.records);
        if fault.is_some() {
            return (Enumerator { records, pending, fault }, ProbeAction::Stop);
        }
        match event {
            ProbeEvent::Unavailable(detail) => (
                Enumerator { records, pending: None, fault: Some(detail) },
                ProbeAction::Stop,
            ),
            ProbeEvent::Identified { refreshed: _, identity } => {
                if identity.is_reportable() {
                    let DisplayIdentity { id, model_name, manufacturer_id: _ } = identity;
                    let name = model_name.unwrap();
                    (
                        Enumerator {
                            records,
                            pending: Some(Candidate { id, name }),
                            fault: None,
                        },
                        ProbeAction::ReadFeature(FEATURE_CODE),
                    )
                } else {
                    (Enumerator { records, pending: None, fault: None }, ProbeAction::NextDisplay)
                }
            },
            ProbeEvent::BrightnessRead(value) => match pending {
                Some(candidate) => {
                    let mut records = records;
                    let Candidate { id, name } = candidate;
                    records.push(DisplayInfo { id, name, brightness: value });
                    assert(listing(records@) =~= before.records.push(
                        record_of(before.pending->0, value),
                    ));
                    (Enumerator { records, pending: None, fault: None }, ProbeAction::NextDisplay)
                },
                None => (Enumerator { records, pending: None, fault: None }, ProbeAction::NextDisplay),
            },
            ProbeEvent::ReadFailed => (
                Enumerator { records, pending: None, fault: None },
                ProbeAction::NextDisplay,
            ),
        }
    }

    /// Ends the enumeration: the records in the order of discovery, or the
    /// channel fault. A display that still waits for its brightness is left
    /// out.
    pub fn finish(self) -> (outcome: Result<Vec<DisplayInfo>, String>)
        ensures
            match outcome {
                Ok(records) => conclusion(self@) == Ok::<Seq<RecordModel>, Seq<char>>(
                    listing(records@),
                ),
                Err(detail) => conclusion(self@) == Err::<Seq<RecordModel>, Seq<char>>(detail@),
            },
            outcome matches Ok(records) ==> forall|i: int|
                0 <= i < records.len() ==> usable_model_name(#[trigger] records[i]@.name),
    {
        proof {
            use_type_invariant(&self);
        }
        let Enumerator { records, pending: _, fault } = self;
        match fault {
            Some(detail) => Err(detail),
            None => {
                assert forall|i: int| 0 <= i < records.len() implies usable_model_name(
                    #[trigger] records[i]@.name,
                ) by {
                    assert(listing(records@)[i] == records[i]@);
                }
                Ok(records)
            },
        }
    }
}

} // verus!
