use fara_bridge::homeassistant::mqtt::{plan_for, MqttAction, PlanStep, PublishAck};
use fara_bridge::models::{Card, CardProduct, Product};

#[test]
fn publish_ack_drains_exactly_twice() {
    let mut ack = PublishAck::new();
    assert_eq!(ack.next_action(), MqttAction::Publish);
    ack.on_published();
    let mut drains = 0;
    while ack.next_action() == MqttAction::Drain {
        ack.on_drained();
        drains += 1;
        assert!(drains <= 2, "the protocol never asks for a third drain");
    }
    assert_eq!(drains, 2);
    assert_eq!(ack.next_action(), MqttAction::Complete);
}

#[test]
fn publish_ack_not_complete_after_one_drain() {
    let mut ack = PublishAck::new();
    ack.on_published();
    ack.on_drained();
    assert_eq!(ack.next_action(), MqttAction::Drain);
}

#[test]
fn plan_publishes_discovery_then_settles_then_state() {
    let card = Card { id: "C1".to_string(), name: "Monthly".to_string() };
    let product = Product::Punch { name: "10-ride".to_string(), units_left: 3 };
    let cp = CardProduct::new(card, product);
    let plan = plan_for(&cp);
    assert_eq!(plan.len(), 3);
    match &plan[0] {
        PlanStep::Publish { topic, payload } => {
            assert_eq!(topic, "homeassistant/sensor/fara_C1_punch/config");
            assert!(payload.contains("\"unique_id\":\"fara_C1_punch\""));
            assert!(payload.contains("\"name\":\"Monthly: 10-ride\""));
        }
        PlanStep::Settle => panic!("discovery publish must come first"),
    }
    assert!(matches!(plan[1], PlanStep::Settle));
    match &plan[2] {
        PlanStep::Publish { topic, payload } => {
            assert_eq!(topic, "homeassistant/sensor/fara_C1_punch/state");
            assert_eq!(payload, "3");
        }
        PlanStep::Settle => panic!("state publish must follow the settle step"),
    }
}

#[test]
fn plan_for_period_publishes_discovery_first() {
    let card = Card { id: "C2".to_string(), name: "Commuter".to_string() };
    let product = Product::Period {
        name: "Monthly".to_string(),
        start: fara_bridge::date::Date::new(2025, 5, 1).unwrap(),
        end: fara_bridge::date::Date::new(2025, 6, 1).unwrap(),
    };
    let cp = CardProduct::new(card, product);
    let plan = plan_for(&cp);
    assert!(plan.len() == 2 || plan.len() == 3);
    match &plan[0] {
        PlanStep::Publish { topic, .. } => {
            assert_eq!(topic, "homeassistant/sensor/fara_C2_period/config");
        }
        PlanStep::Settle => panic!("discovery publish must come first"),
    }
    assert!(matches!(plan[1], PlanStep::Settle));
    if plan.len() == 3 {
        match &plan[2] {
            PlanStep::Publish { topic, payload } => {
                assert_eq!(topic, "homeassistant/sensor/fara_C2_period/state");
                assert!(payload.starts_with("2025-06-01T00:00:00"), "got {}", payload);
            }
            PlanStep::Settle => panic!("state publish must follow the settle step"),
        }
    }
}

#[test]
fn plan_for_purse_ends_with_balance_state() {
    let card = Card { id: "C9".to_string(), name: "Wallet".to_string() };
    let product = Product::Purse { name: "NOK".to_string(), balance: 4250 };
    let cp = CardProduct::new(card, product);
    let plan = plan_for(&cp);
    assert_eq!(plan.len(), 3);
    match &plan[2] {
        PlanStep::Publish { topic, payload } => {
            assert_eq!(topic, "homeassistant/sensor/fara_C9_purse/state");
            assert_eq!(payload, "4250");
        }
        PlanStep::Settle => panic!("state publish must follow the settle step"),
    }
}
