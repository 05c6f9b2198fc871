//! Declarations of the outside types that the library carries, and the
//! trusted wrappers around the few outside calls that the logic makes.

use vstd::prelude::*;

use crate::model::Timestamp;

verus! {

/// `serde_json::Value`, the value type of the free-form fields of an edge.
#[verifier::external_type_specification]
#[verifier::external_body]
pub struct ExJsonValue(serde_json::Value);

/// `serde_json::Map`, the free-form fields of an edge.
#[verifier::external_type_specification]
#[verifier::external_body]
#[verifier::reject_recursive_types(K)]
#[verifier::reject_recursive_types(V)]
pub struct ExJsonMap<K, V>(serde_json::Map<K, V>);

/// Reads the system clock through `chrono::Utc::now`, split into whole
/// seconds since the Unix epoch and the nanoseconds past that second. The
/// time itself is whatever the clock shows; `now` builds it from a
/// `Duration` since the epoch (it panics on a clock before 1970), so the
/// seconds are not negative and the nanoseconds stay below one second.
#[verifier::external_body]
pub fn current_time() -> (now: Timestamp)
    ensures
        now.seconds >= 0,
        now.nanos < 1_000_000_000,
{
    let now = chrono::Utc::now();
    Timestamp { seconds: now.timestamp(), nanos: now.timestamp_subsec_nanos() }
}

/// A lower-case hexadecimal digit.
pub open spec fn is_hex_digit(c: char) -> bool {
    ('0' <= c <= '9') || ('a' <= c <= 'f')
}

/// Whether `text` is a random (version 4, RFC 4122 variant) UUID in its
/// hyphenated lower-case form: 36 characters, hyphens at 8, 13, 18 and 23,
/// hexadecimal digits elsewhere, the version digit `4` at 14 and one of `8`,
/// `9`, `a`, `b` at 19.
pub open spec fn is_v4_uuid_text(text: Seq<char>) -> bool {
    &&& text.len() == 36
    &&& forall|i: int|
        0 <= i < 36 ==> if i == 8 || i == 13 || i == 18 || i == 23 {
            #[trigger] text[i] == '-'
        } else {
            is_hex_digit(text[i])
        }
    &&& text[14] == '4'
    &&& (text[19] == '8' || text[19] == '9' || text[19] == 'a' || text[19] == 'b')
}

/// A fresh random UUID (`uuid::Uuid::new_v4`, which masks in the version and
/// variant bits), written out by its `Display` impl, which goes to the
/// hyphenated lower-case form. Which UUID comes back is left open: it is
/// random.
#[verifier::external_body]
pub fn new_uuid_text() -> (text: String)
    ensures
        is_v4_uuid_text(text@),
{
    uuid::Uuid::new_v4().to_string()
}

} // verus!
