//! The custom ids that tie a Discord component to a stored interaction:
//! `nyaodle-` followed by the object id's hexadecimal text.

use vstd::prelude::*;

use crate::framework::object_id::{hex_decode, hex_lower, is_object_id_hex, lemma_hex_roundtrip, ObjectId};

verus! {

/// The prefix written before the object id in a custom id.
pub open spec fn custom_id_prefix() -> Seq<char> {
    seq!['n', 'y', 'a', 'o', 'd', 'l', 'e', '-']
}

/// The text of the custom id for `oid`.
pub open spec fn custom_id_text(oid: ObjectId) -> Seq<char> {
    custom_id_prefix() + hex_lower(oid.bytes@)
}

/// What `from_string` reads the object id from: the text after its first eight
/// characters (nothing, for shorter text). The prefix itself is not checked.
pub open spec fn custom_id_payload(s: Seq<char>) -> Seq<char> {
    if s.len() >= 8 {
        s.skip(8)
    } else {
        Seq::empty()
    }
}

/// A component's custom id, naming the stored interaction it triggers.
#[derive(Clone, Copy, Debug, PartialEq, Eq, PartialOrd, Ord, Hash)]
pub struct CustomId(pub ObjectId);

impl CustomId {
    /// The object id this custom id names.
    pub fn as_object_id(&self) -> (oid: ObjectId)
        ensures
            oid == self.0,
    {
        self.0
    }

    /// The object id's hexadecimal text, without the prefix.
    pub fn to_hex(&self) -> (hex: String)
        ensures
            hex@ == hex_lower(self.0.bytes@),
    {
        self.0.to_hex()
    }

    /// The custom id as sent to Discord: `nyaodle-` and the hexadecimal text.
    pub fn to_custom_id_string(&self) -> (s: String)
        ensures
            s@ == custom_id_text(self.0),
    {
        let mut s = String::from_str("nyaodle-");
        proof {
            reveal_strlit("nyaodle-");
        }
        let hex = self.0.to_hex();
        s.append(hex.as_str());
        s
    }

    /// Reads a custom id back: drops the first eight characters and parses the
    /// rest as an object id; `None` when the rest is not 24 hexadecimal digits.
    pub fn from_string(value: &str) -> (res: Option<CustomId>)
        ensures
            res is Some <==> is_object_id_hex(custom_id_payload(value@)),
            res matches Some(id) ==> id.0.bytes@ == hex_decode(custom_id_payload(value@)),
    {
        let len = value.unicode_len();
        let rest: &str = if len >= 8 {
            value.substring_char(8, len)
        } else {
            proof {
                reveal_strlit("");
            }
            ""
        };
        match ObjectId::parse_str(rest) {
            Ok(oid) => Some(CustomId(oid)),
            Err(_) => None,
        }
    }
}

impl From<CustomId> for String {
    fn from(value: CustomId) -> (s: String)
        ensures
            s@ == custom_id_text(value.0),
    {
        value.to_custom_id_string()
    }
}

/// No spec `String` can be named here: a `String` is known only through its view,
/// and two strings with the same view are not known to be equal. So `from_spec` is
/// left open and `obeys_from_spec` is false; a direct call of `String::from` gets
/// the exact text from the impl's own `ensures`.
impl vstd::std_specs::convert::FromSpecImpl<CustomId> for String {
    open spec fn obeys_from_spec() -> bool {
        false
    }

    open spec fn from_spec(v: CustomId) -> String {
        arbitrary()
    }
}

/// Reading back the text of a custom id gives the same id.
pub proof fn lemma_custom_id_roundtrip(id: CustomId)
    ensures
        is_object_id_hex(custom_id_payload(custom_id_text(id.0))),
        hex_decode(custom_id_payload(custom_id_text(id.0))) == id.0.bytes@,
{
    lemma_hex_roundtrip(id.0.bytes@);
    let t = custom_id_text(id.0);
    assert(custom_id_payload(t) =~= hex_lower(id.0.bytes@));
}

} // verus!
