use vstd::prelude::*;

verus! {

/// A lowercase hexadecimal digit.
pub open spec fn is_lower_hex_digit(c: char) -> bool {
    ('0' <= c && c <= '9') || ('a' <= c && c <= 'f')
}

/// The hyphenated lowercase text of a random (version 4, RFC 4122 variant)
/// UUID: 36 characters, hyphens at positions 8, 13, 18 and 23, hexadecimal
/// digits elsewhere, the version digit `4` at position 14 and one of
/// `8`, `9`, `a`, `b` at position 19.
pub open spec fn is_uuid_v4_text(s: Seq<char>) -> bool {
    &&& s.len() == 36
    &&& s[8] == '-' && s[13] == '-' && s[18] == '-' && s[23] == '-'
    &&& forall|i: int|
        0 <= i < 36 && i != 8 && i != 13 && i != 18 && i != 23 ==> #[trigger] is_lower_hex_digit(
            s[i],
        )
    &&& s[14] == '4'
    &&& (s[19] == '8' || s[19] == '9' || s[19] == 'a' || s[19] == 'b')
}

/// Draws a fresh identifier with `uuid::Uuid::new_v4` and renders it with its
/// `Display` impl (`to_string`).
/// Trusted: the text has the hyphenated lowercase shape of a version 4 UUID,
/// as the crate's `new_v4` (which sets the version and variant bits) and its
/// hyphenated formatter show. The random bits are not stated.
#[verifier::external_body]
pub(crate) fn new_uuid_v4_text() -> (id: String)
    ensures
        is_uuid_v4_text(id@),
{
    ::uuid::Uuid::new_v4().to_string()
}

} // verus!
