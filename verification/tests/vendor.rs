use fara_bridge::config::parse_port;
use fara_bridge::date::{days_in_month, is_leap_year, Date};
use fara_bridge::fara::models::{FaraTravelCard, TokenRequest, TravelCardResponse};
use fara_bridge::fara::{
    basic_authorization, cards_from_response, token_url, travelcard_products_url,
    travelcards_url,
};
use fara_bridge::render::{decimal_i64, offset_string};

#[test]
fn token_request_fixes_grant_parameters() {
    let r = TokenRequest::new(
        "alice".to_string(),
        "secret".to_string(),
        "pta1".to_string(),
        "client".to_string(),
    );
    assert_eq!(r.fs_username, "alice");
    assert_eq!(r.fs_password, "secret");
    assert_eq!(r.fs_pta, "pta1");
    assert!(!r.fs_privacy_policy_accepted);
    assert_eq!(r.grant_type, "password");
    assert_eq!(r.client_id, "client");
    assert_eq!(r.scope, "read");
}

#[test]
fn vendor_urls() {
    assert_eq!(token_url(), "https://oauth.api.fara.no/oauth/token");
    assert_eq!(
        travelcards_url("pta1", "alice"),
        "https://webshop.api.fara.no/api/ptas/pta1/users/alice/travelcards"
    );
    assert_eq!(
        travelcard_products_url("pta1", "alice", "C1"),
        "https://webshop.api.fara.no/api/ptas/pta1/users/alice/travelcard/C1/products"
    );
}

#[test]
fn basic_authorization_encodes_client_id() {
    assert_eq!(basic_authorization("client"), "Basic Y2xpZW50OnBhc3N3b3Jk");
}

#[test]
fn cards_map_number_and_description() {
    let resp = TravelCardResponse {
        cards: vec![
            FaraTravelCard { card_no: "C1".to_string(), description: "Monthly".to_string() },
            FaraTravelCard { card_no: "C2".to_string(), description: "Spare".to_string() },
        ],
    };
    let cards = cards_from_response(&resp);
    assert_eq!(cards.len(), 2);
    assert_eq!(cards[0].card.id, "C1");
    assert_eq!(cards[0].card.name, "Monthly");
    assert!(cards[0].products.is_empty());
    assert_eq!(cards[1].card.id, "C2");
    assert_eq!(cards[1].card.name, "Spare");
}

#[test]
fn parse_port_reads_decimal_ports() {
    assert_eq!(parse_port("1883"), Some(1883));
    assert_eq!(parse_port("0"), Some(0));
    assert_eq!(parse_port("65535"), Some(65535));
    assert_eq!(parse_port("65536"), None);
    assert_eq!(parse_port("99999999999999999999"), None);
    assert_eq!(parse_port(""), None);
    assert_eq!(parse_port("18a3"), None);
    assert_eq!(parse_port("-1"), None);
}

#[test]
fn dates_follow_the_calendar() {
    assert!(Date::new(2024, 2, 29).is_some());
    assert!(Date::new(2023, 2, 29).is_none());
    assert!(Date::new(1900, 2, 29).is_none());
    assert!(Date::new(2000, 2, 29).is_some());
    assert!(Date::new(2025, 13, 1).is_none());
    assert!(Date::new(2025, 0, 1).is_none());
    assert!(Date::new(2025, 6, 0).is_none());
    assert!(Date::new(2025, 4, 31).is_none());
    assert!(Date::new(0, 1, 1).is_none());
    assert!(is_leap_year(2024) && !is_leap_year(2100));
    assert_eq!(days_in_month(2025, 6), 30);
    assert_eq!(days_in_month(2025, 7), 31);
}

#[test]
fn decimal_rendering() {
    assert_eq!(decimal_i64(0), "0");
    assert_eq!(decimal_i64(3), "3");
    assert_eq!(decimal_i64(4250), "4250");
    assert_eq!(decimal_i64(-42), "-42");
    assert_eq!(decimal_i64(i64::MIN), "-9223372036854775808");
    assert_eq!(decimal_i64(i64::MAX), "9223372036854775807");
}

#[test]
fn offset_notation() {
    assert_eq!(offset_string(0), "+00:00");
    assert_eq!(offset_string(7200), "+02:00");
    assert_eq!(offset_string(-19800), "-05:30");
    assert_eq!(offset_string(3600), "+01:00");
}
