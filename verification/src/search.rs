//! Finding the desktop entry among the files of the search paths: the first
//! file that can be read and decoded decides.

use vstd::prelude::*;

use crate::desktop::{launchable, outcome_of, Desktop, FieldsModel, LoadError};
use crate::entry::{parse_entry, parsed};

verus! {

/// A place where the entry was looked for: the path of the file, and its text
/// if the file could be read.
#[derive(Clone, Debug, Default, PartialEq, Eq)]
pub struct Candidate {
    pub path: String,
    pub contents: Option<String>,
}

/// What a candidate holds: nothing if it could not be read or its text cannot
/// be decoded, else the fields of its entry.
pub open spec fn entry_of(candidate: Candidate) -> Option<FieldsModel> {
    match candidate.contents {
        Some(text) => parsed(candidate.path@, text@),
        None => None,
    }
}

/// Whether candidate `i` holds an entry and none before it does.
pub open spec fn is_first_entry(candidates: Seq<Candidate>, i: int) -> bool {
    &&& 0 <= i < candidates.len()
    &&& entry_of(candidates[i]) is Some
    &&& forall|j: int| 0 <= j < i ==> entry_of(#[trigger] candidates[j]) is None
}

/// Whether no candidate holds an entry.
pub open spec fn holds_no_entry(candidates: Seq<Candidate>) -> bool {
    forall|j: int| 0 <= j < candidates.len() ==> entry_of(#[trigger] candidates[j]) is None
}

/// Loads the desktop entry from the candidates, which come in the order of
/// the search paths. The first candidate that holds an entry decides, whatever
/// follows it: the entry is loaded if it is launchable, and the load fails
/// with the missing field if it is not. Without such a candidate the load
/// fails with `NotFound`.
pub fn load_desktop(candidates: &Vec<Candidate>) -> (outcome: Result<Desktop, LoadError>)
    ensures
        forall|i: int|
            is_first_entry(candidates@, i) ==> outcome_of(outcome) == launchable(
                entry_of(candidates@[i])->Some_0,
            ),
        holds_no_entry(candidates@) ==> outcome == Err::<Desktop, LoadError>(LoadError::NotFound),
        outcome == Err::<Desktop, LoadError>(LoadError::NotFound) ==> holds_no_entry(candidates@),
{
    let mut i: usize = 0;
    while i < candidates.len()
        invariant
            i <= candidates@.len(),
            forall|j: int| 0 <= j < i ==> entry_of(#[trigger] candidates@[j]) is None,
        decreases candidates@.len() - i,
    {
        let candidate = &candidates[i];
        match &candidate.contents {
            Some(text) => match parse_entry(candidate.path.as_str(), text.as_str()) {
                Some(fields) => {
                    assert(is_first_entry(candidates@, i as int));
                    return fields.into_desktop();
                },
                None => {},
            },
            None => {},
        }
        i += 1;
    }
    Err(LoadError::NotFound)
}

} // verus!
