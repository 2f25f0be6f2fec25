use fara_bridge::date::Date;
use fara_bridge::fara::models::{products_from_records, FaraTravelProduct};
use fara_bridge::models::Product;

fn record(product_type: &str) -> FaraTravelProduct {
    FaraTravelProduct {
        status: Some("ACTIVE".to_string()),
        product_type: product_type.to_string(),
        template_name: None,
        start_validity: None,
        end_validity: None,
        units_left: 0,
        balance: 0,
        currency: None,
    }
}

fn date(year: u16, month: u8, day: u8) -> Date {
    Date::new(year, month, day).unwrap()
}

#[test]
fn punch_with_template_yields_punch() {
    let mut r = record("PUNCH");
    r.template_name = Some("10-ride".to_string());
    r.units_left = 3;
    match r.to_product() {
        Some(Product::Punch { name, units_left }) => {
            assert_eq!(name, "10-ride");
            assert_eq!(units_left, 3);
        }
        other => panic!("expected a punch product, got {:?}", other),
    }
}

#[test]
fn punch_units_default_to_zero() {
    let mut r = record("PUNCH");
    r.template_name = Some("single".to_string());
    match r.to_product() {
        Some(Product::Punch { units_left, .. }) => assert_eq!(units_left, 0),
        other => panic!("expected a punch product, got {:?}", other),
    }
}

#[test]
fn punch_without_template_yields_nothing() {
    let mut r = record("PUNCH");
    r.units_left = 5;
    assert!(r.to_product().is_none());
}

#[test]
fn unknown_tag_yields_nothing() {
    let mut r = record("GIFTCARD");
    r.template_name = Some("anything".to_string());
    r.start_validity = Some(date(2025, 1, 1));
    r.end_validity = Some(date(2025, 2, 1));
    r.units_left = 9;
    r.balance = 100;
    r.currency = Some("NOK".to_string());
    assert!(r.to_product().is_none());
}

#[test]
fn period_complete_yields_period() {
    let mut r = record("PERIOD");
    r.template_name = Some("Monthly".to_string());
    r.start_validity = Some(date(2025, 5, 1));
    r.end_validity = Some(date(2025, 6, 1));
    match r.to_product() {
        Some(Product::Period { name, start, end }) => {
            assert_eq!(name, "Monthly");
            assert_eq!(start, date(2025, 5, 1));
            assert_eq!(end, date(2025, 6, 1));
        }
        other => panic!("expected a period product, got {:?}", other),
    }
}

#[test]
fn period_missing_both_dates_yields_nothing() {
    let mut r = record("PERIOD");
    r.template_name = Some("Monthly".to_string());
    assert!(r.to_product().is_none());
}

#[test]
fn period_missing_one_date_yields_nothing() {
    let mut r = record("PERIOD");
    r.template_name = Some("Monthly".to_string());
    r.start_validity = Some(date(2025, 5, 1));
    assert!(r.to_product().is_none());

    let mut r = record("PERIOD");
    r.template_name = Some("Monthly".to_string());
    r.end_validity = Some(date(2025, 6, 1));
    assert!(r.to_product().is_none());
}

#[test]
fn period_without_template_yields_nothing() {
    let mut r = record("PERIOD");
    r.start_validity = Some(date(2025, 5, 1));
    r.end_validity = Some(date(2025, 6, 1));
    assert!(r.to_product().is_none());
}

#[test]
fn purse_takes_currency_as_name() {
    let mut r = record("PURSE");
    r.currency = Some("NOK".to_string());
    r.balance = 4250;
    match r.to_product() {
        Some(Product::Purse { name, balance }) => {
            assert_eq!(name, "NOK");
            assert_eq!(balance, 4250);
        }
        other => panic!("expected a purse product, got {:?}", other),
    }
}

#[test]
fn purse_without_currency_yields_nothing() {
    let mut r = record("PURSE");
    r.balance = 4250;
    assert!(r.to_product().is_none());
}

#[test]
fn empty_record_list_yields_no_products() {
    let records: Vec<FaraTravelProduct> = Vec::new();
    assert!(products_from_records(&records).is_empty());
}

#[test]
fn records_filter_and_keep_order() {
    let mut punch = record("PUNCH");
    punch.template_name = Some("10-ride".to_string());
    punch.units_left = 2;
    let broken = record("PUNCH");
    let unknown = record("SEASON");
    let mut purse = record("PURSE");
    purse.currency = Some("NOK".to_string());
    purse.balance = 100;
    let records = vec![punch, broken, unknown, purse];
    let products = products_from_records(&records);
    assert_eq!(products.len(), 2);
    assert!(matches!(products[0], Product::Punch { units_left: 2, .. }));
    assert!(matches!(products[1], Product::Purse { balance: 100, .. }));
}
