//! Record identifiers: twelve bytes written as twenty-four hexadecimal digits.

use vstd::prelude::*;

verus! {

#[verifier::external_type_specification]
#[verifier::external_body]
pub struct ExObjectIdError(mongodb::bson::oid::Error);

/// Whether `c` is a hexadecimal digit, in either case.
pub open spec fn is_hex_digit(c: char) -> bool {
    ('0' <= c && c <= '9') || ('a' <= c && c <= 'f') || ('A' <= c && c <= 'F')
}

/// The value of a hexadecimal digit.
pub open spec fn hex_value(c: char) -> int {
    if '0' <= c && c <= '9' {
        c as int - '0' as int
    } else if 'a' <= c && c <= 'f' {
        c as int - 'a' as int + 10
    } else {
        c as int - 'A' as int + 10
    }
}

/// Whether `s` is the text form of an identifier: exactly twenty-four hexadecimal digits.
pub open spec fn is_identifier_text(s: Seq<char>) -> bool {
    s.len() == 24 && forall|i: int| 0 <= i < s.len() ==> #[trigger] is_hex_digit(s[i])
}

/// Whether the digits `s` spell the bytes `b`, two digits per byte, high digit first.
pub open spec fn spells(s: Seq<char>, b: Seq<u8>) -> bool {
    &&& s.len() == 2 * b.len()
    &&& forall|i: int|
        0 <= i < b.len() ==> #[trigger] b[i] as int == 16 * hex_value(s[2 * i]) + hex_value(
            s[2 * i + 1],
        )
}

/// The identifier a document store assigns to a record.
#[derive(Clone, Copy, Debug)]
pub struct RecordId {
    pub bytes: [u8; 12],
}

impl RecordId {
    pub open spec fn view(&self) -> Seq<u8> {
        self.bytes@
    }
}

/// Relies on bson's `ObjectId::parse_str`: it accepts exactly twenty-four
/// hexadecimal digits of either case and decodes them pairwise into the twelve
/// bytes of the identifier, which `ObjectId::bytes` hands back.
#[verifier::external_body]
fn parse_object_id(s: &str) -> (r: Result<[u8; 12], mongodb::bson::oid::Error>)
    ensures
        r is Ok <==> is_identifier_text(s@),
        r matches Ok(b) ==> spells(s@, b@),
{
    mongodb::bson::oid::ObjectId::parse_str(s).map(|o| o.bytes())
}

/// Reads the text form of an identifier; `None` when `s` is not twenty-four
/// hexadecimal digits.
pub fn parse_identifier(s: &str) -> (r: Option<RecordId>)
    ensures
        r is Some <==> is_identifier_text(s@),
        r matches Some(id) ==> spells(s@, id@),
{
    match parse_object_id(s) {
        Ok(bytes) => Some(RecordId { bytes }),
        Err(_) => None,
    }
}

} // verus!
