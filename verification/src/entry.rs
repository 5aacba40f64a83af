//! Decoding the text of a desktop-entry file. The decoding itself is the work
//! of the `freedesktop_desktop_entry` crate; this module decides which texts
//! may be handed to it and names what comes back.

use vstd::prelude::*;

use crate::desktop::{EntryFields, FieldsModel};

use freedesktop_desktop_entry::DesktopEntry;
use std::path::Path;
use vstd::std_specs::iter::IteratorSpec;

verus! {

broadcast use vstd::string::group_string_axioms;

/// Whether `char::is_whitespace` holds of a character: whether it has the
/// Unicode property `White_Space`.
pub uninterp spec fn is_white_space(c: char) -> bool;

/// What `DesktopEntry::decode` makes of a path and a text, as far as the
/// launcher reads it: nothing where the path is refused, else the values that
/// the entry's group `Desktop Entry` holds for `Name`, `Icon` and `Exec`.
pub uninterp spec fn decoded(path: Seq<char>, text: Seq<char>) -> Option<FieldsModel>;

/// Whether only white space stands between position `i` and the start of the
/// line it is on.
pub open spec fn blank_before(text: Seq<char>, i: int) -> bool
    decreases i,
{
    if i <= 0 {
        true
    } else if text[i - 1] == '\n' {
        true
    } else {
        is_white_space(text[i - 1]) && blank_before(text, i - 1)
    }
}

/// Whether position `i` holds an `=` that is the first thing on its line: an
/// assignment without a key.
pub open spec fn keyless_at(text: Seq<char>, i: int) -> bool {
    0 <= i < text.len() && text[i] == '=' && blank_before(text, i)
}

/// Whether some line of the text assigns to no key. The decoder cannot take
/// such a text.
pub open spec fn has_keyless_line(text: Seq<char>) -> bool {
    exists|i: int| keyless_at(text, i)
}

/// The fields of an optional entry as a mathematical value.
pub open spec fn fields_of(fields: Option<EntryFields>) -> Option<FieldsModel> {
    match fields {
        Some(f) => Some(f@),
        None => None,
    }
}

/// What a text is read as: nothing if a line of it assigns to no key, else
/// what the decoder makes of it.
pub open spec fn parsed(path: Seq<char>, text: Seq<char>) -> Option<FieldsModel> {
    if has_keyless_line(text) {
        None
    } else {
        decoded(path, text)
    }
}

/// Calls `char::is_whitespace`. Trusted: the result is the value that
/// `is_white_space` names.
#[verifier::external_body]
fn is_whitespace(c: char) -> (white: bool)
    ensures
        white == is_white_space(c),
{
    c.is_whitespace()
}

/// Calls `DesktopEntry::decode` on the path and the text and reads the keys
/// `Name`, `Icon` and `Exec` of the result through `DesktopEntry::desktop_entry`,
/// `DesktopEntry::icon` and `DesktopEntry::exec`, which look the key up in the
/// group `Desktop Entry` and do nothing else. (`DesktopEntry::name` is not
/// asked: where the text names a gettext domain it hands the value to gettext,
/// and what comes back depends on the locale and the catalogues of the
/// machine.) Trusted: the outcome depends on the two arguments alone and is
/// the value that `decoded` names. The decoder indexes the key of each
/// assignment at its last byte, so a text with a keyless line is kept from it.
#[verifier::external_body]
fn decode_fields(path: &str, text: &str) -> (fields: Option<EntryFields>)
    requires
        !has_keyless_line(text@),
    ensures
        fields_of(fields) == decoded(path@, text@),
{
    match DesktopEntry::decode(Path::new(path), text) {
        Ok(entry) => Some(EntryFields {
            name: entry.desktop_entry("Name").map(String::from),
            icon: entry.icon().map(String::from),
            command: entry.exec().map(String::from),
        }),
        Err(_) => None,
    }
}

/// Tells whether some line of the text assigns to no key.
pub fn find_keyless_line(text: &str) -> (found: bool)
    ensures
        found == has_keyless_line(text@),
{
    let mut chars = text.chars();
    let ghost mut i: int = 0;
    let mut blank = true;
    loop
        invariant
            0 <= i <= text@.len(),
            chars.remaining() == text@.subrange(i, text@.len() as int),
            blank == blank_before(text@, i),
            forall|j: int| 0 <= j < i ==> !keyless_at(text@, j),
        decreases text@.len() - i,
    {
        match chars.next() {
            None => {
                return false;
            },
            Some(c) => {
                assert(c == text@[i]);
                if c == '\n' {
                    blank = true;
                } else if blank {
                    if c == '=' {
                        assert(keyless_at(text@, i));
                        return true;
                    }
                    blank = is_whitespace(c);
                }
                proof {
                    assert(chars.remaining() =~= text@.subrange(i + 1, text@.len() as int));
                    i = i + 1;
                }
            },
        }
    }
}

/// Reads the text of a desktop-entry file found at `path`: nothing if a line
/// of it assigns to no key, else what the decoder makes of it.
pub fn parse_entry(path: &str, text: &str) -> (fields: Option<EntryFields>)
    ensures
        fields_of(fields) == parsed(path@, text@),
{
    if find_keyless_line(text) {
        None
    } else {
        decode_fields(path, text)
    }
}

} // verus!
