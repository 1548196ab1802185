use nyaodle::framework::custom_id::CustomId;
use nyaodle::framework::interactions::{PendingInteraction, PendingInteractionType};
use nyaodle::framework::object_id::ObjectId;

fn sample_id() -> ObjectId {
    ObjectId::from_bytes([0x65, 0x0f, 0xa1, 0x00, 0xff, 0x12, 0x34, 0x56, 0x78, 0x9a, 0xbc, 0xde])
}

#[test]
fn object_id_to_hex_is_lowercase_pairs() {
    assert_eq!(sample_id().to_hex(), "650fa100ff123456789abcde");
}

#[test]
fn object_id_parse_accepts_either_case() {
    let lower = ObjectId::parse_str("650fa100ff123456789abcde").unwrap();
    let upper = ObjectId::parse_str("650FA100FF123456789ABCDE").unwrap();
    assert_eq!(lower.bytes, sample_id().bytes);
    assert_eq!(upper.bytes, sample_id().bytes);
}

#[test]
fn object_id_parse_rejects_bad_text() {
    assert!(ObjectId::parse_str("650fa100ff123456789abcd").is_err());
    assert!(ObjectId::parse_str("650fa100ff123456789abcdef0").is_err());
    assert!(ObjectId::parse_str("650fa100ff123456789abcdg").is_err());
    assert!(ObjectId::parse_str("").is_err());
}

#[test]
fn custom_id_string_has_prefix() {
    let id = CustomId(sample_id());
    assert_eq!(id.to_custom_id_string(), "nyaodle-650fa100ff123456789abcde");
    let s: String = String::from(id);
    assert_eq!(s, "nyaodle-650fa100ff123456789abcde");
    assert_eq!(id.to_hex(), "650fa100ff123456789abcde");
    assert_eq!(id.as_object_id().bytes, sample_id().bytes);
}

#[test]
fn custom_id_roundtrip() {
    let id = CustomId(sample_id());
    let back = CustomId::from_string(&id.to_custom_id_string()).unwrap();
    assert_eq!(back.0.bytes, id.0.bytes);
}

#[test]
fn custom_id_prefix_is_not_checked() {
    let back = CustomId::from_string("whatever650fa100ff123456789abcde").unwrap();
    assert_eq!(back.0.bytes, sample_id().bytes);
}

#[test]
fn custom_id_rejects_short_or_bare() {
    assert!(CustomId::from_string("nyaodle").is_none());
    assert!(CustomId::from_string("").is_none());
    assert!(CustomId::from_string("650fa100ff123456789abcde").is_none());
    assert!(CustomId::from_string("nyaodle-650fa100ff123456789abcdz").is_none());
}

#[test]
fn pending_interaction_kinds_and_names() {
    let p = PendingInteraction::ExecuteNyaodle { config_id: sample_id() };
    assert_eq!(p.interaction_type(), PendingInteractionType::ExecuteNyaodle);
    assert_eq!(p.config_id().bytes, sample_id().bytes);
    assert_eq!(PendingInteractionType::SelectThreaders.stored_name(), "select_threaders");
    assert_eq!(PendingInteractionType::ExecuteNyaodle.stored_name(), "execute_nyaodle");
    assert_eq!(PendingInteractionType::CloseThreadersConfig.stored_name(), "close_threaders_config");
}
