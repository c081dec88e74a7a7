//! Text operations of the standard library that the gateway's rules use.

use vstd::prelude::*;

verus! {

/// The text that `str::trim` leaves: the input without its leading and
/// trailing Unicode white space.
pub uninterp spec fn trimmed(text: Seq<char>) -> Seq<char>;

/// The text that `str::to_lowercase` gives: the input with every character
/// replaced by its Unicode lower-case form.
pub uninterp spec fn lowercased(text: Seq<char>) -> Seq<char>;

/// `str::eq`: two string slices are equal exactly when they hold the same
/// characters.
#[verifier::external_body]
pub(crate) fn same_text(left: &str, right: &str) -> (same: bool)
    ensures
        same == (left@ == right@),
{
    left == right
}

/// `str::trim`: the slice without leading and trailing white space. The
/// result depends on the text alone and is named by [`trimmed`].
#[verifier::external_body]
pub(crate) fn trim_text(text: &str) -> (kept: &str)
    ensures
        kept@ == trimmed(text@),
{
    text.trim()
}

/// `str::to_lowercase`: the lower-case form of the text. The result depends
/// on the text alone and is named by [`lowercased`].
#[verifier::external_body]
pub(crate) fn lowercase_text(text: &str) -> (lowered: String)
    ensures
        lowered@ == lowercased(text@),
{
    text.to_lowercase()
}

} // verus!
