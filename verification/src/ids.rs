//! Ids of newly added presets: random version-4 UUIDs from the `uuid` crate.

use vstd::prelude::*;

verus! {

/// Whether `c` is a lower-case hexadecimal digit.
pub open spec fn is_lower_hex(c: char) -> bool {
    ||| 48 <= c as u32 <= 57
    ||| 97 <= c as u32 <= 102
}

/// Whether `s` is a UUID of version 4 (random) and the RFC 4122 variant, in
/// the hyphenated lower-case form `xxxxxxxx-xxxx-4xxx-Nxxx-xxxxxxxxxxxx`,
/// where `N` is one of `8`, `9`, `a`, `b`.
pub open spec fn is_uuid_v4_text(s: Seq<char>) -> bool {
    &&& s.len() == 36
    &&& forall|i: int|
        0 <= i < 36 ==> if i == 8 || i == 13 || i == 18 || i == 23 {
            #[trigger] s[i] == '-'
        } else {
            is_lower_hex(s[i])
        }
    &&& s[14] == '4'
    &&& (s[19] == '8' || s[19] == '9' || s[19] == 'a' || s[19] == 'b')
}

/// A new random id for a preset: `uuid::Uuid::new_v4()` rendered by its
/// `Display` impl. The crate sets the version nibble to 4 and the variant bits
/// to `10`, and displays the hyphenated lower-case form; the other 122 bits
/// are random, so nothing more is stated of them. The crate panics when the
/// operating system's random source fails; that depends on the machine, not
/// on any argument.
#[verifier::external_body]
pub(crate) fn new_connection_id() -> (id: String)
    ensures
        is_uuid_v4_text(id@),
{
    uuid::Uuid::new_v4().to_string()
}

} // verus!
