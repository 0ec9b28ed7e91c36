//! Fresh identifiers for new records.

use vstd::prelude::*;

verus! {

/// The digits of lower-case hexadecimal.
pub open spec fn is_lower_hex(c: char) -> bool {
    "0123456789abcdef"@.contains(c)
}

/// The positions of the hyphens in the text of a UUID.
pub open spec fn is_hyphen_position(i: int) -> bool {
    i == 8 || i == 13 || i == 18 || i == 23
}

/// `s` is the hyphenated lower-case text of a random (version 4) UUID:
/// 32 hexadecimal digits in groups of 8, 4, 4, 4 and 12, the third group
/// starting with the version digit `4` and the fourth with a variant digit
/// `8`, `9`, `a` or `b`.
pub open spec fn is_random_uuid_text(s: Seq<char>) -> bool {
    &&& s.len() == 36
    &&& forall|i: int|
        0 <= i < 36 ==> if is_hyphen_position(i) {
            #[trigger] s[i] == '-'
        } else {
            is_lower_hex(s[i])
        }
    &&& s[14] == '4'
    &&& (s[19] == '8' || s[19] == '9' || s[19] == 'a' || s[19] == 'b')
}

/// A fresh identifier: the text of `uuid::Uuid::new_v4()`.
///
/// Believed of the `uuid` crate, not proved: `new_v4` draws 128 random bits
/// from the operating system and fixes the version and variant bits, and
/// the `Display` of a `Uuid` is its hyphenated lower-case form. Which
/// identifier comes back is left open; two calls may or may not differ.
/// The call does not return if the operating system has no random bits to
/// give.
#[verifier::external_body]
pub(crate) fn random_uuid_text() -> (id: String)
    ensures
        is_random_uuid_text(id@),
{
    uuid::Uuid::new_v4().to_string()
}

} // verus!
