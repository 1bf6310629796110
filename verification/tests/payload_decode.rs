use doip_client::jose::payload_from_attrs;
use doip_client::profile::AspProfile;
use doip_client::payload::AttrValue;
use doip_client::payload::VerifiedPayload;
use doip_client::payload::decode;

fn entry(key: &str, value: AttrValue) -> (String, AttrValue) {
    (key.to_string(), value)
}

#[test]
fn decode_reads_all_attributes() {
    let payload = VerifiedPayload {
        entries: vec![
            entry("http://ariadne.id/version", AttrValue::Num(1)),
            entry("http://ariadne.id/name", AttrValue::Text("Alice".to_string())),
            entry("http://ariadne.id/description", AttrValue::Text("about me".to_string())),
            entry("http://ariadne.id/color", AttrValue::Text("#aabbcc".to_string())),
            entry(
                "http://ariadne.id/claims",
                AttrValue::List(vec![
                    AttrValue::Text("https://service.example/alice".to_string()),
                    AttrValue::Text("dns:alice.example".to_string()),
                ]),
            ),
        ],
    };
    let record = decode("aspe:keyoxide.org:ABC", &payload);
    assert_eq!(record.uri, "aspe:keyoxide.org:ABC".to_string());
    assert_eq!(record.version, Some(1));
    assert_eq!(record.name, Some("Alice".to_string()));
    assert_eq!(record.description, Some("about me".to_string()));
    assert_eq!(record.display_color, Some("#aabbcc".to_string()));
    assert_eq!(
        record.claim_uris,
        vec!["https://service.example/alice".to_string(), "dns:alice.example".to_string()]
    );
}

#[test]
fn decode_is_total_on_empty_payload() {
    let payload = VerifiedPayload { entries: Vec::new() };
    let record = decode("aspe:example.org:X", &payload);
    assert_eq!(record.uri, "aspe:example.org:X".to_string());
    assert_eq!(record.version, None);
    assert_eq!(record.name, None);
    assert_eq!(record.description, None);
    assert_eq!(record.display_color, None);
    assert!(record.claim_uris.is_empty());
}

#[test]
fn decode_degrades_wrong_types_to_absent() {
    let payload = VerifiedPayload {
        entries: vec![
            entry("http://ariadne.id/version", AttrValue::Text("one".to_string())),
            entry("http://ariadne.id/name", AttrValue::Num(7)),
            entry("http://ariadne.id/description", AttrValue::Other),
            entry("http://ariadne.id/color", AttrValue::List(Vec::new())),
            entry("http://ariadne.id/claims", AttrValue::Num(3)),
        ],
    };
    let record = decode("aspe:example.org:X", &payload);
    assert_eq!(record.version, None);
    assert_eq!(record.name, None);
    assert_eq!(record.description, None);
    assert_eq!(record.display_color, None);
    assert!(record.claim_uris.is_empty());
}

#[test]
fn decode_drops_non_text_claim_entries_keeping_order() {
    let payload = VerifiedPayload {
        entries: vec![entry(
            "http://ariadne.id/claims",
            AttrValue::List(vec![
                AttrValue::Text("first".to_string()),
                AttrValue::Num(2),
                AttrValue::Other,
                AttrValue::Text("second".to_string()),
                AttrValue::List(Vec::new()),
                AttrValue::Text("third".to_string()),
            ]),
        )],
    };
    let record = decode("aspe:example.org:X", &payload);
    assert_eq!(
        record.claim_uris,
        vec!["first".to_string(), "second".to_string(), "third".to_string()]
    );
}

#[test]
fn decode_takes_first_binding_of_a_repeated_key() {
    let payload = VerifiedPayload {
        entries: vec![
            entry("http://ariadne.id/name", AttrValue::Text("first".to_string())),
            entry("http://ariadne.id/name", AttrValue::Text("second".to_string())),
        ],
    };
    let record = decode("aspe:example.org:X", &payload);
    assert_eq!(record.name, Some("first".to_string()));
}

#[test]
fn payload_from_attrs_round_trips_through_decode() {
    let payload = payload_from_attrs(
        Some(3),
        Some("Bob".to_string()),
        None,
        Some("#001122".to_string()),
        Some(vec![Some("https://a.example/x".to_string()), None, Some("dns:b.example".to_string())]),
    );
    let record = decode("aspe:example.org:Y", &payload);
    assert_eq!(record.version, Some(3));
    assert_eq!(record.name, Some("Bob".to_string()));
    assert_eq!(record.description, None);
    assert_eq!(record.display_color, Some("#001122".to_string()));
    assert_eq!(
        record.claim_uris,
        vec!["https://a.example/x".to_string(), "dns:b.example".to_string()]
    );
}

#[test]
fn payload_from_attrs_with_nothing_decodes_to_empty_record() {
    let payload = payload_from_attrs(None, None, None, None, None);
    let record = decode("aspe:example.org:Z", &payload);
    assert_eq!(record.version, None);
    assert_eq!(record.name, None);
    assert_eq!(record.description, None);
    assert_eq!(record.display_color, None);
    assert!(record.claim_uris.is_empty());
}

#[test]
fn text_rendering_defaults_absent_fields() {
    let record = decode("aspe:example.org:X", &VerifiedPayload { entries: Vec::new() });
    let profile = AspProfile::assemble(record, Vec::new());
    assert_eq!(
        profile.to_text(),
        "Profile URI: aspe:example.org:X Version: 0\nName: \nDescription: \nClaims:\n"
    );
}

#[test]
fn text_rendering_prints_multi_digit_versions() {
    let payload = payload_from_attrs(Some(105), Some("Carol".to_string()), None, None, None);
    let record = decode("aspe:example.org:C", &payload);
    let profile = AspProfile::assemble(record, Vec::new());
    assert_eq!(
        profile.to_text(),
        "Profile URI: aspe:example.org:C Version: 105\nName: Carol\nDescription: \nClaims:\n"
    );
}
