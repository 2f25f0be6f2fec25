//! The publish-acknowledgement protocol and the per-sensor publish plan.
//!
//! The MQTT session multiplexes the outgoing-packet event of an
//! at-least-once publish and the broker's acknowledgement on one ordered
//! event stream, so a publish is complete only after exactly two sequential
//! drains of that stream. `PublishAck` is that protocol as a state machine:
//! the session loop performs the action `next_action` names, reports it
//! back, and is done when `Complete` comes out. The transport waits
//! themselves (publish, drain, the settling delay) are suspension points
//! the library cannot perform; the loop around the machine does.

use vstd::prelude::*;
use crate::models::{CardProduct, Product};
use crate::homeassistant::helpers::{
    config_topic, discovery_json, spec_config_topic, spec_discovery_json, spec_state_topic,
    state_message, state_topic,
};
use crate::render::{spec_decimal_signed, spec_iso_midnight};

verus! {

/// What the session loop must do next for one publish.
#[derive(Clone, Copy, Debug, PartialEq, Eq, Structural)]
pub enum MqttAction {
    /// Submit the at-least-once, non-retained publish.
    Publish,
    /// Drain one event from the session's event stream.
    Drain,
    /// The publish is acknowledged; nothing is left to do.
    Complete,
}

/// The acknowledgement wait for a single publish, as a state machine.
pub struct PublishAck {
    pub published: bool,
    pub drains: u8,
}

impl PublishAck {
    /// The machine's invariant: drains are counted only after the publish,
    /// and never past the two the protocol needs.
    pub open spec fn inv(self) -> bool {
        self.drains <= 2 && (!self.published ==> self.drains == 0)
    }

    /// The publish is acknowledged: it went out and exactly two events
    /// were drained after it.
    pub open spec fn done(self) -> bool {
        self.published && self.drains == 2
    }

    pub open spec fn spec_next_action(self) -> MqttAction {
        if !self.published {
            MqttAction::Publish
        } else if self.drains < 2 {
            MqttAction::Drain
        } else {
            MqttAction::Complete
        }
    }

    /// A fresh machine: nothing published, nothing drained.
    pub fn new() -> (r: PublishAck)
        ensures
            r.inv(),
            !r.published,
            r.drains == 0,
    {
        PublishAck { published: false, drains: 0 }
    }

    /// Names the action the session loop must perform next.
    pub fn next_action(&self) -> (a: MqttAction)
        ensures
            a == self.spec_next_action(),
    {
        if !self.published {
            MqttAction::Publish
        } else if self.drains < 2 {
            MqttAction::Drain
        } else {
            MqttAction::Complete
        }
    }

    /// Records that the publish was submitted.
    pub fn on_published(&mut self)
        requires
            old(self).inv(),
            !old(self).published,
        ensures
            final(self).inv(),
            final(self).published,
            final(self).drains == old(self).drains,
    {
        self.published = true;
    }

    /// Records that one event was drained from the event stream.
    pub fn on_drained(&mut self)
        requires
            old(self).inv(),
            old(self).published,
            old(self).drains < 2,
        ensures
            final(self).inv(),
            final(self).published,
            final(self).drains == old(self).drains + 1,
    {
        self.drains = self.drains + 1;
    }
}

/// The acknowledgement protocol performs exactly two event-stream drains
/// per publish: the machine asks for a drain until two have been recorded,
/// and reports the publish complete exactly then — never earlier, never
/// later.
pub proof fn lemma_publish_ack_two_drains(m: PublishAck)
    requires
        m.inv(),
    ensures
        m.spec_next_action() is Complete <==> m.done(),
        m.done() ==> m.drains == 2,
        m.published && m.drains < 2 ==> m.spec_next_action() is Drain,
        !m.published ==> m.spec_next_action() is Publish,
{
}

/// One step of the publish plan for a (card, product) pair.
pub enum PlanStep {
    /// Publish the payload to the topic, at least once, not retained, and
    /// wait for its acknowledgement before going on.
    Publish { topic: String, payload: String },
    /// Pause for the settling delay, so Home Assistant registers the
    /// discovered entity before its state arrives.
    Settle,
}

impl PlanStep {
    pub open spec fn is_publish_of(self, topic: Seq<char>, payload: Seq<char>) -> bool {
        match self {
            PlanStep::Publish { topic: t, payload: p } => t@ == topic && p@ == payload,
            PlanStep::Settle => false,
        }
    }
}

/// Lays out the publish sequence for one (card, product) pair: first the
/// discovery payload to the config topic, then the settling pause, then —
/// where a state payload is representable — the state payload to the state
/// topic. Discovery always precedes state; a pair with no representable
/// state publishes discovery alone.
pub fn plan_for(cp: &CardProduct) -> (r: Vec<PlanStep>)
    requires
        cp.product.wf(),
    ensures
        2 <= r@.len() <= 3,
        r@[0].is_publish_of(
            spec_config_topic(cp.card.id@, cp.product.spec_kind_name()),
            spec_discovery_json(cp.card.id@, cp.card.name@, cp.product),
        ),
        r@[1] is Settle,
        r@.len() == 3 ==> match cp.product {
            Product::Punch { units_left, .. } => r@[2].is_publish_of(
                spec_state_topic(cp.card.id@, cp.product.spec_kind_name()),
                spec_decimal_signed(units_left as int),
            ),
            Product::Purse { balance, .. } => r@[2].is_publish_of(
                spec_state_topic(cp.card.id@, cp.product.spec_kind_name()),
                spec_decimal_signed(balance as int),
            ),
            Product::Period { end, .. } => exists|o: int|
                -86400 < o < 86400 && r@[2].is_publish_of(
                    spec_state_topic(cp.card.id@, cp.product.spec_kind_name()),
                    spec_iso_midnight(end, o),
                ),
        },
        (cp.product matches Product::Punch { .. } || cp.product matches Product::Purse { .. })
            ==> r@.len() == 3,
{
    let mut steps: Vec<PlanStep> = Vec::new();
    let topic = config_topic(&cp.card, &cp.product);
    let payload = discovery_json(&cp.card, &cp.product);
    steps.push(PlanStep::Publish { topic, payload });
    steps.push(PlanStep::Settle);
    match state_message(&cp.product) {
        Some(state) => {
            let topic = state_topic(&cp.card, &cp.product);
            steps.push(PlanStep::Publish { topic, payload: state });
        },
        None => {},
    }
    steps
}

} // verus!
