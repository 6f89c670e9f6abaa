//! The brightness setter: which display a write is addressed to, and what the
//! caller is told afterwards.
//!
//! The caller owns the channel. It hands over the keys of the connected
//! displays in enumeration order, performs the one write that the plan names,
//! and hands back how the channel answered.

use vstd::prelude::*;
use vstd::string::*;
use crate::display::FEATURE_CODE;

verus! {

/// Text of the error for a key that no connected display has.
pub const NOT_FOUND_MESSAGE: &'static str = "Display not found";

/// What the text of a failed write starts with; the channel's own words follow.
pub const WRITE_FAILED_PREFIX: &'static str = "Failed to set brightness: ";

/// Why a brightness could not be set.
#[derive(Debug, Clone, PartialEq, Eq)]
pub enum SetBrightnessError {
    /// No connected display has the key that was asked for.
    DisplayNotFound,
    /// The channel refused the write; its own words are kept.
    WriteFailed(String),
}

/// Mathematical value of a [`SetBrightnessError`].
pub enum SetErrorModel {
    DisplayNotFound,
    WriteFailed(Seq<char>),
}

impl View for SetBrightnessError {
    type V = SetErrorModel;

    open spec fn view(&self) -> SetErrorModel {
        match *self {
            SetBrightnessError::DisplayNotFound => SetErrorModel::DisplayNotFound,
            SetBrightnessError::WriteFailed(detail) => SetErrorModel::WriteFailed(detail@),
        }
    }
}

/// The text that a caller is shown for an error.
pub open spec fn message_of(error: SetErrorModel) -> Seq<char> {
    match error {
        SetErrorModel::DisplayNotFound => "Display not found"@,
        SetErrorModel::WriteFailed(detail) => "Failed to set brightness: "@ + detail,
    }
}

impl SetBrightnessError {
    /// The text that a caller is shown for this error.
    pub fn message(&self) -> (text: String)
        ensures
            text@ == message_of(self@),
    {
        match self {
            SetBrightnessError::DisplayNotFound => String::from_str(NOT_FOUND_MESSAGE),
            SetBrightnessError::WriteFailed(detail) => String::from_str(
                WRITE_FAILED_PREFIX,
            ).concat(detail.as_str()),
        }
    }
}

/// The keys of a list of displays, each as a sequence of characters.
pub open spec fn keys(ids: Seq<String>) -> Seq<Seq<char>> {
    Seq::new(ids.len(), |i: int| ids[i]@)
}

/// Some display has the key `id`.
pub open spec fn has_match(ids: Seq<Seq<char>>, id: Seq<char>) -> bool {
    exists|i: int| 0 <= i < ids.len() && #[trigger] ids[i] == id
}

/// The display at `index` has the key `id`, and none before it has.
pub open spec fn is_first_match(ids: Seq<Seq<char>>, id: Seq<char>, index: int) -> bool {
    &&& 0 <= index < ids.len()
    &&& ids[index] == id
    &&& forall|j: int| 0 <= j < index ==> #[trigger] ids[j] != id
}

/// Position of the first display with the key `id`, if there is one.
pub open spec fn first_match(ids: Seq<Seq<char>>, id: Seq<char>) -> Option<int> {
    if exists|i: int| is_first_match(ids, id, i) {
        Some(choose|i: int| is_first_match(ids, id, i))
    } else {
        None
    }
}

/// There is at most one first match, so that it is the one `first_match` names.
pub proof fn lemma_first_match_is_unique(ids: Seq<Seq<char>>, id: Seq<char>, index: int)
    requires
        is_first_match(ids, id, index),
    ensures
        first_match(ids, id) == Some(index),
{
    let chosen = choose|i: int| is_first_match(ids, id, i);
    if chosen < index {
        assert(ids[chosen] != id);
    } else if index < chosen {
        assert(ids[index] != id);
    }
}

/// Where no display has the key, there is no first match.
pub proof fn lemma_no_match_no_first(ids: Seq<Seq<char>>, id: Seq<char>)
    requires
        !has_match(ids, id),
    ensures
        first_match(ids, id) is None,
{
    if exists|i: int| is_first_match(ids, id, i) {
        let chosen = choose|i: int| is_first_match(ids, id, i);
        assert(ids[chosen] == id);
    }
}

/// Among the displays up to one that has the key, there is a first that has it.
proof fn lemma_first_match_before(
    ids: Seq<Seq<char>>,
    id: Seq<char>,
    witness: int,
) -> (index: int)
    requires
        0 <= witness < ids.len(),
        ids[witness] == id,
    ensures
        is_first_match(ids, id, index),
    decreases witness,
{
    if exists|j: int| 0 <= j < witness && #[trigger] ids[j] == id {
        let earlier = choose|j: int| 0 <= j < witness && #[trigger] ids[j] == id;
        lemma_first_match_before(ids, id, earlier)
    } else {
        witness
    }
}

/// Where some display has the key, there is a first match.
pub proof fn lemma_match_has_first(ids: Seq<Seq<char>>, id: Seq<char>) -> (index: int)
    requires
        has_match(ids, id),
    ensures
        is_first_match(ids, id, index),
        first_match(ids, id) == Some(index),
{
    let witness = choose|i: int| 0 <= i < ids.len() && #[trigger] ids[i] == id;
    let index = lemma_first_match_before(ids, id, witness);
    lemma_first_match_is_unique(ids, id, index);
    index
}

/// Finds the first display with the key `id`.
pub fn locate(ids: &Vec<String>, id: &str) -> (found: Option<usize>)
    ensures
        match found {
            Some(index) => is_first_match(keys(ids@), id@, index as int),
            None => !has_match(keys(ids@), id@),
        },
        first_match(keys(ids@), id@) == match found {
            Some(index) => Some(index as int),
            None => None,
        },
{
    let wanted = String::from_str(id);
    let mut index: usize = 0;
    while index < ids.len()
        invariant
            index <= ids.len(),
            wanted@ == id@,
            forall|j: int| 0 <= j < index ==> #[trigger] keys(ids@)[j] != id@,
        decreases ids.len() - index,
    {
        if ids[index] == wanted {
            proof {
                lemma_first_match_is_unique(keys(ids@), id@, index as int);
            }
            return Some(index);
        }
        index += 1;
    }
    proof {
        lemma_no_match_no_first(keys(ids@), id@);
    }
    None
}

/// The one write that setting a brightness asks of the channel.
#[derive(Debug, Clone, Copy, PartialEq, Eq, Structural)]
pub struct WriteRequest {
    /// Position of the display in enumeration order.
    pub index: usize,
    /// Code of the feature to write.
    pub code: u8,
    /// Value to write; it is handed to the channel as it is.
    pub value: u16,
}

/// Plans setting the brightness of the display with the key `id`: a write of
/// `value` to the brightness feature of the first such display, or
/// `DisplayNotFound` where no connected display has that key.
pub fn plan_write(
    ids: &Vec<String>,
    id: &str,
    value: u16,
) -> (plan: Result<WriteRequest, SetBrightnessError>)
    ensures
        match plan {
            Ok(request) => {
                &&& is_first_match(keys(ids@), id@, request.index as int)
                &&& request.code == FEATURE_CODE
                &&& request.value == value
            },
            Err(error) => {
                &&& !has_match(keys(ids@), id@)
                &&& error@ == SetErrorModel::DisplayNotFound
            },
        },
{
    match locate(ids, id) {
        Some(index) => Ok(WriteRequest { index, code: FEATURE_CODE, value }),
        None => Err(SetBrightnessError::DisplayNotFound),
    }
}

/// Turns the channel's answer to the planned write into the result for the
/// caller: success where the write went through, `WriteFailed` with the
/// channel's own words where it did not.
pub fn conclude_write(answer: Result<(), String>) -> (result: Result<(), SetBrightnessError>)
    ensures
        match answer {
            Ok(_) => result is Ok,
            Err(detail) => result matches Err(error) && error@ == SetErrorModel::WriteFailed(
                detail@,
            ),
        },
{
    match answer {
        Ok(_) => Ok(()),
        Err(detail) => Err(SetBrightnessError::WriteFailed(detail)),
    }
}

} // verus!
