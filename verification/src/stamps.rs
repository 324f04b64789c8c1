//! Session identifiers and wall-clock timestamps.
use vstd::prelude::*;

verus! {

/// A lowercase hexadecimal digit.
pub open spec fn is_lower_hex_digit(c: char) -> bool {
    ('0' <= c && c <= '9') || ('a' <= c && c <= 'f')
}

/// The hyphenated lowercase text of a random (version 4, RFC 4122 variant)
/// UUID: `xxxxxxxx-xxxx-4xxx-Vxxx-xxxxxxxxxxxx` with `V` one of `8`, `9`, `a`, `b`.
pub open spec fn is_v4_uuid_text(s: Seq<char>) -> bool {
    &&& s.len() == 36
    &&& forall|i: int|
        0 <= i < 36 ==> if i == 8 || i == 13 || i == 18 || i == 23 {
            s[i] == '-'
        } else {
            is_lower_hex_digit(#[trigger] s[i])
        }
    &&& s[14] == '4'
    &&& (s[19] == '8' || s[19] == '9' || s[19] == 'a' || s[19] == 'b')
}

/// An RFC 3339 timestamp in UTC as chrono writes it without `Z`: at least
/// `YYYY-MM-DDTHH:MM:SS` and ending in the offset `+00:00`.
pub open spec fn is_utc_rfc3339_text(s: Seq<char>) -> bool {
    &&& s.len() >= 25
    &&& s.subrange(s.len() - 6, s.len() as int) == "+00:00"@
}

/// Generates a fresh session identifier with `uuid::Uuid::new_v4` and renders it
/// with its `Display` impl (`to_string`), which writes the hyphenated lowercase form.
/// `new_v4` masks the version nibble to 4 and the variant bits to `10`, which
/// is all that is claimed of the random value. It panics only if the operating
/// system's random source fails, which no argument can rule out.
#[verifier::external_body]
pub(crate) fn random_uuid_v4_text() -> (s: String)
    ensures
        is_v4_uuid_text(s@),
{
    uuid::Uuid::new_v4().to_string()
}

/// Reads the clock with `chrono::Utc::now` and renders the instant with
/// `DateTime::to_rfc3339`. Of the text only its shape is claimed: chrono writes
/// the date, `T`, the time with optional fraction, and for UTC the offset `+00:00`.
#[verifier::external_body]
pub(crate) fn utc_now_rfc3339() -> (s: String)
    ensures
        is_utc_rfc3339_text(s@),
{
    chrono::Utc::now().to_rfc3339()
}

} // verus!
