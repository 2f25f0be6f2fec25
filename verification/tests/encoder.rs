use fara_bridge::date::Date;
use fara_bridge::homeassistant::helpers::{
    config_topic, device_class, discovery_json, identifier, state_message, state_topic,
    topic_prefix,
};
use fara_bridge::homeassistant::models::json_escape;
use fara_bridge::models::{Card, CardProduct, Product};

fn card() -> Card {
    Card { id: "C1".to_string(), name: "Monthly".to_string() }
}

fn punch() -> Product {
    Product::Punch { name: "10-ride".to_string(), units_left: 3 }
}

fn period(end: Date) -> Product {
    Product::Period {
        name: "Monthly".to_string(),
        start: Date::new(2025, 5, 1).unwrap(),
        end,
    }
}

#[test]
fn identifier_concatenates_integration_card_and_kind() {
    assert_eq!(identifier(&card(), &punch()), "fara_C1_punch");
}

#[test]
fn identifier_is_deterministic_across_calls() {
    let a = identifier(&card(), &punch());
    let b = identifier(&card(), &punch());
    assert_eq!(a, b);
    let ta = config_topic(&card(), &punch());
    let tb = config_topic(&card(), &punch());
    assert_eq!(ta, tb);
}

#[test]
fn topics_share_prefix_and_differ_in_last_segment() {
    let prefix = topic_prefix(&card(), &punch());
    let config = config_topic(&card(), &punch());
    let state = state_topic(&card(), &punch());
    assert_eq!(config, format!("{}/config", prefix));
    assert_eq!(state, format!("{}/state", prefix));
    assert_eq!(prefix, "homeassistant/sensor/fara_C1_punch");
}

#[test]
fn device_class_by_kind() {
    assert_eq!(device_class(&punch()), None);
    let p = period(Date::new(2025, 6, 1).unwrap());
    assert_eq!(device_class(&p), Some("timestamp".to_string()));
    let purse = Product::Purse { name: "NOK".to_string(), balance: 1 };
    assert_eq!(device_class(&purse), Some("monetary".to_string()));
}

#[test]
fn punch_state_is_decimal_units() {
    assert_eq!(state_message(&punch()), Some("3".to_string()));
}

#[test]
fn purse_state_is_decimal_balance() {
    let purse = Product::Purse { name: "NOK".to_string(), balance: 4250 };
    assert_eq!(state_message(&purse), Some("4250".to_string()));
}

#[test]
fn negative_balance_keeps_sign() {
    let purse = Product::Purse { name: "NOK".to_string(), balance: -7 };
    assert_eq!(state_message(&purse), Some("-7".to_string()));
}

#[test]
fn period_state_is_iso_midnight_of_end_date() {
    let p = period(Date::new(2025, 6, 1).unwrap());
    let s = state_message(&p).expect("local midnight resolves for this date");
    assert!(s.starts_with("2025-06-01T00:00:00"), "unexpected state {}", s);
    let offset = &s["2025-06-01T00:00:00".len()..];
    let bytes = offset.as_bytes();
    assert_eq!(bytes.len(), 6, "offset notation ±HH:MM, got {}", offset);
    assert!(bytes[0] == b'+' || bytes[0] == b'-');
    assert!(bytes[1].is_ascii_digit() && bytes[2].is_ascii_digit());
    assert_eq!(bytes[3], b':');
    assert!(bytes[4].is_ascii_digit() && bytes[5].is_ascii_digit());
}

#[test]
fn discovery_message_for_one_card_and_punch() {
    let cp = CardProduct::new(card(), punch());
    let m = cp.config_message();
    assert_eq!(m.unique_id, "fara_C1_punch");
    assert_eq!(m.object_id, "fara_C1_punch");
    assert_eq!(m.name, "Monthly: 10-ride");
    assert_eq!(m.device_class, None);
    assert_eq!(m.state_topic, "homeassistant/sensor/fara_C1_punch/state");
    assert_eq!(m.device.identifiers, vec!["fara"]);
    assert_eq!(m.device.name, "Fara travel card");
    assert_eq!(cp.state_message(), Some("3".to_string()));
}

#[test]
fn discovery_json_exact_wire_form() {
    let json = discovery_json(&card(), &punch());
    let expected = "{\"name\":\"Monthly: 10-ride\",\"device_class\":null,\"state_topic\":\"homeassistant/sensor/fara_C1_punch/state\",\"unique_id\":\"fara_C1_punch\",\"object_id\":\"fara_C1_punch\",\"device\":{\"identifiers\":[\"fara\"],\"name\":\"Fara travel card\"}}";
    assert_eq!(json, expected);
}

#[test]
fn discovery_json_quotes_device_class() {
    let purse = Product::Purse { name: "NOK".to_string(), balance: 1 };
    let json = discovery_json(&card(), &purse);
    assert!(json.contains("\"device_class\":\"monetary\""), "got {}", json);
}

#[test]
fn json_escape_handles_quotes_backslashes_and_controls() {
    assert_eq!(json_escape("plain"), "plain");
    assert_eq!(json_escape("a\"b"), "a\\\"b");
    assert_eq!(json_escape("a\\b"), "a\\\\b");
    assert_eq!(json_escape("a\nb"), "a\\u000ab");
    assert_eq!(json_escape("\u{1f}"), "\\u001f");
}

#[test]
fn discovery_json_escapes_names() {
    let c = Card { id: "C1".to_string(), name: "My \"card\"".to_string() };
    let json = discovery_json(&c, &punch());
    assert!(json.contains("\"name\":\"My \\\"card\\\": 10-ride\""), "got {}", json);
}
