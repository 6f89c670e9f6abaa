//! What is known about a display, and which displays are worth reporting.

use vstd::prelude::*;
use vstd::string::*;

verus! {

/// Code of the brightness feature in the monitor-control protocol. Reads and
/// writes address this one feature, so that a value written is the value that
/// a later read is about.
pub const FEATURE_CODE: u8 = 0x10;

/// Model name under which a generic driver announces a display whose real
/// vendor descriptor it could not obtain.
pub const PLACEHOLDER_MODEL_NAME: &'static str = "Generic PnP Monitor";

/// The placeholder model name as a sequence of characters.
pub open spec fn placeholder_model_name() -> Seq<char> {
    "Generic PnP Monitor"@
}

/// The text of an optional string field.
pub open spec fn text_of(field: Option<String>) -> Option<Seq<char>> {
    match field {
        Some(text) => Some(text@),
        None => None,
    }
}

/// Identity of a display as the channel reports it at one point in time.
#[derive(Debug, Clone, PartialEq, Eq)]
pub struct DisplayIdentity {
    /// Key that tells the displays of one session apart.
    pub id: String,
    /// Human-readable model, where the display supplies one.
    pub model_name: Option<String>,
    /// Vendor identifier, where the display supplies one.
    pub manufacturer_id: Option<String>,
}

/// Mathematical value of a [`DisplayIdentity`].
pub struct IdentityModel {
    pub id: Seq<char>,
    pub model_name: Option<Seq<char>>,
    pub manufacturer_id: Option<Seq<char>>,
}

impl View for DisplayIdentity {
    type V = IdentityModel;

    open spec fn view(&self) -> IdentityModel {
        IdentityModel {
            id: self.id@,
            model_name: text_of(self.model_name),
            manufacturer_id: text_of(self.manufacturer_id),
        }
    }
}

/// A model name that names a real product: not empty and not the placeholder.
pub open spec fn usable_model_name(name: Seq<char>) -> bool {
    name.len() > 0 && name != placeholder_model_name()
}

/// Whether a display is worth reporting: model name and vendor identifier are
/// both present and non-empty, and the model name is not the placeholder.
pub open spec fn reportable(identity: IdentityModel) -> bool {
    &&& identity.model_name matches Some(model) && usable_model_name(model)
    &&& identity.manufacturer_id matches Some(maker) && maker.len() > 0
}

impl DisplayIdentity {
    /// Decides whether this display is worth reporting.
    pub fn is_reportable(&self) -> (verdict: bool)
        ensures
            verdict == reportable(self@),
    {
        match (&self.model_name, &self.manufacturer_id) {
            (Some(model), Some(maker)) => {
                let placeholder = String::from_str(PLACEHOLDER_MODEL_NAME);
                !model.as_str().is_empty() && !maker.as_str().is_empty() && !(*model
                    == placeholder)
            },
            _ => false,
        }
    }

    /// A copy of this identity.
    pub fn duplicate(&self) -> (copy: DisplayIdentity)
        ensures
            copy@ == self@,
    {
        DisplayIdentity {
            id: self.id.clone(),
            model_name: match &self.model_name {
                Some(model) => Some(model.clone()),
                None => None,
            },
            manufacturer_id: match &self.manufacturer_id {
                Some(maker) => Some(maker.clone()),
                None => None,
            },
        }
    }
}

/// One entry of an enumeration: a reportable display and its brightness.
#[derive(Debug, Clone, PartialEq, Eq)]
pub struct DisplayInfo {
    /// Key of the display, as in its identity.
    pub id: String,
    /// Model name of the display.
    pub name: String,
    /// Brightness as last read from the display.
    pub brightness: u16,
}

/// Mathematical value of a [`DisplayInfo`].
pub struct RecordModel {
    pub id: Seq<char>,
    pub name: Seq<char>,
    pub brightness: u16,
}

impl View for DisplayInfo {
    type V = RecordModel;

    open spec fn view(&self) -> RecordModel {
        RecordModel { id: self.id@, name: self.name@, brightness: self.brightness }
    }
}

/// The values of a list of records, in order.
pub open spec fn listing(records: Seq<DisplayInfo>) -> Seq<RecordModel> {
    Seq::new(records.len(), |i: int| records[i]@)
}

} // verus!
