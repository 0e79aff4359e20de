//! Store identifiers: 12 bytes, written as 24 hexadecimal digits.
use vstd::prelude::*;
use crate::error::LibraryError;

verus! {

pub open spec fn is_hex_digit(c: char) -> bool {
    ('0' <= c && c <= '9') || ('a' <= c && c <= 'f') || ('A' <= c && c <= 'F')
}

pub open spec fn hex_value(c: char) -> int {
    if '0' <= c && c <= '9' {
        c as int - '0' as int
    } else if 'a' <= c && c <= 'f' {
        c as int - 'a' as int + 10
    } else {
        c as int - 'A' as int + 10
    }
}

/// The text form of an identifier: exactly 24 hexadecimal digits, either case.
pub open spec fn is_id_text(s: Seq<char>) -> bool {
    s.len() == 24 && forall|i: int| 0 <= i < s.len() ==> is_hex_digit(#[trigger] s[i])
}

/// The byte that digits `2 * i` and `2 * i + 1` of `s` encode.
pub open spec fn id_byte(s: Seq<char>, i: int) -> int {
    hex_value(s[2 * i]) * 16 + hex_value(s[2 * i + 1])
}

#[verifier::external_type_specification]
#[verifier::external_body]
pub struct ExObjectIdError(bson::oid::Error);

/// Relies on bson::oid::ObjectId::parse_str, which hex-decodes the text and
/// accepts it only when that gives exactly 12 bytes, and on ObjectId::bytes,
/// which hands those bytes back.
#[verifier::external_body]
fn decode_object_id(s: &str) -> (r: Result<[u8; 12], bson::oid::Error>)
    ensures
        r.is_ok() <==> is_id_text(s@),
        r matches Ok(b) ==> forall|i: int| 0 <= i < 12 ==> b@[i] as int == id_byte(s@, i),
{
    bson::oid::ObjectId::parse_str(s).map(|o| o.bytes())
}

/// Reads a store identifier from its text form.
pub fn parse_id(s: &str) -> (r: Result<[u8; 12], LibraryError>)
    ensures
        r.is_ok() <==> is_id_text(s@),
        r matches Ok(b) ==> forall|i: int| 0 <= i < 12 ==> b@[i] as int == id_byte(s@, i),
        r matches Err(e) ==> e == LibraryError::InvalidId,
{
    match decode_object_id(s) {
        Ok(b) => Ok(b),
        Err(_) => Err(LibraryError::InvalidId),
    }
}

} // verus!
