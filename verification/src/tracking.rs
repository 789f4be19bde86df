//! Shipment tracking identifiers.

use vstd::prelude::*;

verus! {

/// A decimal digit or one of the letters `a` to `f`.
pub open spec fn is_lower_hex_digit(c: char) -> bool {
    ('0' <= c && c <= '9') || ('a' <= c && c <= 'f')
}

/// Whether a position of a 36-character identifier holds a hyphen.
pub open spec fn is_hyphen_position(i: int) -> bool {
    i == 8 || i == 13 || i == 18 || i == 23
}

/// The textual form of a UUID in lower case: 32 hexadecimal digits in groups
/// of 8, 4, 4, 4 and 12, with a hyphen between groups.
pub open spec fn is_uuid_text(s: Seq<char>) -> bool {
    &&& s.len() == 36
    &&& forall|i: int|
        0 <= i < 36 ==> if is_hyphen_position(i) {
            #[trigger] s[i] == '-'
        } else {
            is_lower_hex_digit(s[i])
        }
}

/// The textual form of a random (version 4) UUID: the first digit of the third
/// group is 4, and the first digit of the fourth group is 8, 9, a or b.
pub open spec fn is_random_uuid_text(s: Seq<char>) -> bool {
    &&& is_uuid_text(s)
    &&& s[14] == '4'
    &&& (s[19] == '8' || s[19] == '9' || s[19] == 'a' || s[19] == 'b')
}

/// Calls `Uuid::new_v4` of `uuid` and renders the result with its `Display`
/// impl. The contract states the shape that every such text has: lower-case
/// hyphenated form, version 4, RFC 4122 variant. Which of them comes back is
/// left open: it is random.
#[verifier::external_body]
fn random_uuid_text() -> (id: String)
    ensures
        is_random_uuid_text(id@),
{
    uuid::Uuid::new_v4().to_string()
}

/// Creates a fresh tracking identifier.
pub fn create_tracking_id() -> (id: String)
    ensures
        is_random_uuid_text(id@),
        is_uuid_text(id@),
{
    random_uuid_text()
}

} // verus!
