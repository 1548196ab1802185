//! A MongoDB object id held as its twelve raw bytes, with its hexadecimal
//! text form computed and parsed by the `bson` crate.

use vstd::prelude::*;

verus! {

/// The error `bson` reports for a string that is not an object id.
#[verifier::external_type_specification]
#[verifier::external_body]
pub struct ExOidError(bson::oid::Error);

/// The lower-case hexadecimal digit for `n` (`0 <= n < 16`).
pub open spec fn hex_digit(n: int) -> char {
    if n < 10 {
        (48 + n) as char
    } else {
        (87 + n) as char
    }
}

/// Lower-case hexadecimal text of `bytes`, two digits per byte, high nibble first.
pub open spec fn hex_lower(bytes: Seq<u8>) -> Seq<char> {
    Seq::new(
        2 * bytes.len(),
        |i: int|
            if i % 2 == 0 {
                hex_digit(bytes[i / 2] as int / 16)
            } else {
                hex_digit(bytes[i / 2] as int % 16)
            },
    )
}

/// A character that `hex` accepts as a digit: `0-9`, `a-f` or `A-F`.
pub open spec fn is_hex_char(c: char) -> bool {
    ||| ('0' <= c && c <= '9')
    ||| ('a' <= c && c <= 'f')
    ||| ('A' <= c && c <= 'F')
}

/// The value of a hexadecimal digit.
pub open spec fn hex_value(c: char) -> int {
    if '0' <= c && c <= '9' {
        c as int - 48
    } else if 'a' <= c && c <= 'f' {
        c as int - 87
    } else {
        c as int - 55
    }
}

/// Text that names an object id: exactly 24 hexadecimal digits of either case.
pub open spec fn is_object_id_hex(s: Seq<char>) -> bool {
    &&& s.len() == 24
    &&& forall|i: int| 0 <= i < s.len() ==> is_hex_char(#[trigger] s[i])
}

/// The bytes that hexadecimal text stands for, two digits per byte.
pub open spec fn hex_decode(s: Seq<char>) -> Seq<u8> {
    Seq::new(
        s.len() / 2,
        |i: int| (hex_value(s[2 * i]) * 16 + hex_value(s[2 * i + 1])) as u8,
    )
}

/// Calls `bson::oid::ObjectId::to_hex` on the id made of `bytes`.
/// Claimed: the result is `hex::encode` of the twelve bytes, which writes each
/// byte as two lower-case digits, high nibble first.
#[verifier::external_body]
fn bson_to_hex(bytes: [u8; 12]) -> (hex: String)
    ensures
        hex@ == hex_lower(bytes@),
{
    bson::oid::ObjectId::from_bytes(bytes).to_hex()
}

/// Calls `bson::oid::ObjectId::parse_str` and hands back the parsed id's bytes.
/// Claimed: `hex::decode` succeeds with twelve bytes exactly when the text is 24
/// hexadecimal digits (of either case), and each byte is then the value of its two
/// digits; on any other text the call returns its error.
#[verifier::external_body]
fn bson_parse_str(s: &str) -> (res: Result<[u8; 12], bson::oid::Error>)
    ensures
        res is Ok <==> is_object_id_hex(s@),
        res matches Ok(bytes) ==> bytes@ == hex_decode(s@),
{
    match bson::oid::ObjectId::parse_str(s) {
        Ok(oid) => Ok(oid.bytes()),
        Err(e) => Err(e),
    }
}

/// The twelve bytes of a MongoDB object id.
#[derive(Clone, Copy, Debug, PartialEq, Eq, PartialOrd, Ord, Hash)]
pub struct ObjectId {
    pub bytes: [u8; 12],
}

impl ObjectId {
    /// The id made of the given bytes.
    pub fn from_bytes(bytes: [u8; 12]) -> (oid: ObjectId)
        ensures
            oid.bytes == bytes,
    {
        ObjectId { bytes }
    }

    /// The id's lower-case hexadecimal text (24 characters).
    pub fn to_hex(&self) -> (hex: String)
        ensures
            hex@ == hex_lower(self.bytes@),
            hex@.len() == 24,
    {
        bson_to_hex(self.bytes)
    }

    /// Parses 24 hexadecimal digits (of either case) into an id.
    pub fn parse_str(s: &str) -> (res: Result<ObjectId, bson::oid::Error>)
        ensures
            res is Ok <==> is_object_id_hex(s@),
            res matches Ok(oid) ==> oid.bytes@ == hex_decode(s@),
    {
        match bson_parse_str(s) {
            Ok(bytes) => Ok(ObjectId { bytes }),
            Err(e) => Err(e),
        }
    }
}

/// Each hexadecimal digit reads back as the value it was written for.
pub proof fn lemma_hex_digit_roundtrip(n: int)
    requires
        0 <= n < 16,
    ensures
        is_hex_char(hex_digit(n)),
        hex_value(hex_digit(n)) == n,
{
}

/// Hexadecimal text of an id's bytes is text that names an id, and decodes back
/// to the same bytes.
pub proof fn lemma_hex_roundtrip(bytes: Seq<u8>)
    requires
        bytes.len() == 12,
    ensures
        is_object_id_hex(hex_lower(bytes)),
        hex_decode(hex_lower(bytes)) == bytes,
{
    let h = hex_lower(bytes);
    assert forall|i: int| 0 <= i < h.len() implies is_hex_char(#[trigger] h[i]) by {
        lemma_hex_digit_roundtrip(bytes[i / 2] as int / 16);
        lemma_hex_digit_roundtrip(bytes[i / 2] as int % 16);
    }
    let d = hex_decode(h);
    assert forall|j: int| 0 <= j < 12 implies #[trigger] d[j] == bytes[j] by {
        let b = bytes[j] as int;
        lemma_hex_digit_roundtrip(b / 16);
        lemma_hex_digit_roundtrip(b % 16);
        assert((2 * j) / 2 == j);
        assert((2 * j + 1) / 2 == j);
        assert((2 * j) % 2 == 0);
        assert((2 * j + 1) % 2 == 1);
        assert((b / 16) * 16 + b % 16 == b);
    }
    assert(d =~= bytes);
}

} // verus!
