//! Random identifiers for sessions and requests.

use vstd::prelude::*;

verus! {

/// A decimal digit or one of the letters `a` to `f`.
pub open spec fn is_lower_hex(c: char) -> bool {
    ('0' <= c && c <= '9') || ('a' <= c && c <= 'f')
}

/// Whether position `i` of a hyphenated identifier holds a hyphen.
pub open spec fn is_hyphen_position(i: int) -> bool {
    i == 8 || i == 13 || i == 18 || i == 23
}

/// The hyphenated lower-case form of a random (version 4) UUID: 36
/// characters, hyphens after the 8th, 12th, 16th and 20th digit, lower-case
/// hexadecimal digits elsewhere, the version digit `4` and a variant digit
/// between `8` and `b`.
pub open spec fn is_random_uuid_text(s: Seq<char>) -> bool {
    &&& s.len() == 36
    &&& forall|i: int|
        0 <= i < 36 ==> if is_hyphen_position(i) {
            s[i] == '-'
        } else {
            is_lower_hex(#[trigger] s[i])
        }
    &&& s[14] == '4'
    &&& (s[19] == '8' || s[19] == '9' || s[19] == 'a' || s[19] == 'b')
}

/// `uuid::Uuid::new_v4` followed by the identifier's `Display` form. The
/// identifier is random, so only its shape is claimed: `new_v4` fixes the
/// version and variant bits, and `Display` writes 32 lower-case hexadecimal
/// digits in five hyphen-separated groups.
#[verifier::external_body]
fn random_uuid_text() -> (text: String)
    ensures
        is_random_uuid_text(text@),
{
    uuid::Uuid::new_v4().to_string()
}

/// A fresh random identifier in hyphenated lower-case form.
pub fn uuid() -> (id: String)
    ensures
        is_random_uuid_text(id@),
        id@.len() > 0,
{
    random_uuid_text()
}

} // verus!
