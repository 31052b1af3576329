//! The rules a display name has to meet before a session may chat.

use crate::message::SERVER_USERNAME;
use crate::text::{eq_ignore_ascii_case, eq_ignoring_ascii_case, trimmed};
use vstd::prelude::*;
use vstd::string::*;

verus! {

/// The most characters a display name may have.
pub const MAX_NAME_CHARS: usize = 20;

/// Why a proposed display name is turned down.
#[derive(Clone, Copy, Debug, PartialEq, Eq, Structural)]
pub enum NameError {
    /// Nothing is left of the name once the whitespace around it is removed.
    Empty,
    /// The name is the relay's own, in some mix of upper and lower case.
    Reserved,
    /// The name has more than [`MAX_NAME_CHARS`] characters.
    TooLong,
}

/// What is wrong with `name` as a display name, if anything. `name` is taken
/// as it stands; the caller trims it.
pub open spec fn name_fault(name: Seq<char>) -> Option<NameError> {
    if name.len() == 0 {
        Some(NameError::Empty)
    } else if eq_ignoring_ascii_case(name, SERVER_USERNAME@) {
        Some(NameError::Reserved)
    } else if name.len() > MAX_NAME_CHARS {
        Some(NameError::TooLong)
    } else {
        None
    }
}

/// Whether `name` can be the display name of a session: it has no
/// whitespace around it and breaks none of the rules.
pub open spec fn is_display_name(name: Seq<char>) -> bool {
    &&& trimmed(name) == name
    &&& name_fault(name) is None
}

/// Checks `name` against the display-name rules.
pub fn check_display_name(name: &str) -> (r: Option<NameError>)
    ensures
        r == name_fault(name@),
{
    let chars: usize = name.unicode_len();
    if chars == 0 {
        Some(NameError::Empty)
    } else if eq_ignore_ascii_case(name, SERVER_USERNAME) {
        Some(NameError::Reserved)
    } else if chars > MAX_NAME_CHARS {
        Some(NameError::TooLong)
    } else {
        None
    }
}

/// A name is accepted exactly if it is not empty, has at most
/// [`MAX_NAME_CHARS`] characters and is not the relay's own name in any case.
pub proof fn lemma_accepted_names(name: Seq<char>)
    ensures
        name_fault(name) is None <==> 0 < name.len() <= MAX_NAME_CHARS && !eq_ignoring_ascii_case(
            name,
            SERVER_USERNAME@,
        ),
{
}

} // verus!
