//! What the registry needs to know of a text: its lower-case and upper-case
//! forms, and whether it starts with a given prefix.

use vstd::prelude::*;
use vstd::string::{StrSliceExecFns, StringExecFns};

verus! {

/// The lower-case form of a text, as `str::to_lowercase` gives it.
pub uninterp spec fn lowercase_of(text: Seq<char>) -> Seq<char>;

/// Calls `str::to_lowercase`, which returns the text with each character
/// replaced by its lower-case form. The result depends on the text alone.
#[verifier::external_body]
pub(crate) fn to_lowercase(text: &String) -> (lower: String)
    ensures
        lower@ == lowercase_of(text@),
{
    text.to_lowercase()
}

/// The upper-case form of a text, as `str::to_uppercase` gives it.
pub uninterp spec fn uppercase_of(text: Seq<char>) -> Seq<char>;

/// Calls `str::to_uppercase`, which returns the text with each character
/// replaced by its upper-case form. The result depends on the text alone.
#[verifier::external_body]
pub(crate) fn to_uppercase(text: &String) -> (upper: String)
    ensures
        upper@ == uppercase_of(text@),
{
    text.to_uppercase()
}

/// Whether `text` starts with `prefix`.
pub fn starts_with(text: &String, prefix: &str) -> (starts: bool)
    ensures
        starts == prefix@.is_prefix_of(text@),
{
    let wanted = prefix.unicode_len();
    if wanted > text.as_str().unicode_len() {
        return false;
    }
    let start = String::from_str(text.as_str().substring_char(0, wanted));
    start == String::from_str(prefix)
}

} // verus!
