//! Topic naming and the discovery/state encoders.

use vstd::prelude::*;
use crate::date::Date;
use crate::models::{Card, Product};
use crate::homeassistant::models::{
    ConfigMessage, Device, spec_config_json, spec_json_escape,
};
use crate::render::{decimal_i64, iso_midnight, spec_decimal_signed, spec_iso_midnight};

verus! {

/// The integration's identifier: the first segment of every sensor
/// identifier and the device identifier under which all sensors group.
pub open spec fn spec_integration_identifier() -> Seq<char> {
    "fara"@
}

/// The integration's display name, shown on the Home Assistant device.
pub open spec fn spec_integration_name() -> Seq<char> {
    "Fara travel card"@
}

pub fn integration_identifier() -> (r: &'static str)
    ensures
        r@ == spec_integration_identifier(),
{
    "fara"
}

pub fn integration_name() -> (r: &'static str)
    ensures
        r@ == spec_integration_name(),
{
    "Fara travel card"
}

/// The unique sensor identifier for a (card, product-kind) pair:
/// `<integration-id>_<card-id>_<kind>`. A pure function of the card id and
/// the product kind alone, so repeated publishes address the same entity.
pub open spec fn spec_identifier(card_id: Seq<char>, kind: Seq<char>) -> Seq<char> {
    spec_integration_identifier() + "_"@ + card_id + "_"@ + kind
}

pub open spec fn spec_topic_prefix(card_id: Seq<char>, kind: Seq<char>) -> Seq<char> {
    "homeassistant/sensor/"@ + spec_identifier(card_id, kind)
}

pub open spec fn spec_config_topic(card_id: Seq<char>, kind: Seq<char>) -> Seq<char> {
    spec_topic_prefix(card_id, kind) + "/config"@
}

pub open spec fn spec_state_topic(card_id: Seq<char>, kind: Seq<char>) -> Seq<char> {
    spec_topic_prefix(card_id, kind) + "/state"@
}

pub fn identifier(card: &Card, product: &Product) -> (r: String)
    ensures
        r@ == spec_identifier(card.id@, product.spec_kind_name()),
{
    let mut s = String::from_str(integration_identifier());
    s.append("_");
    s.append(card.id.as_str());
    s.append("_");
    let kind = product.kind_name();
    s.append(kind.as_str());
    s
}

pub fn topic_prefix(card: &Card, product: &Product) -> (r: String)
    ensures
        r@ == spec_topic_prefix(card.id@, product.spec_kind_name()),
{
    let mut s = String::from_str("homeassistant/sensor/");
    let id = identifier(card, product);
    s.append(id.as_str());
    s
}

pub fn config_topic(card: &Card, product: &Product) -> (r: String)
    ensures
        r@ == spec_config_topic(card.id@, product.spec_kind_name()),
{
    let mut s = topic_prefix(card, product);
    s.append("/config");
    s
}

pub fn state_topic(card: &Card, product: &Product) -> (r: String)
    ensures
        r@ == spec_state_topic(card.id@, product.spec_kind_name()),
{
    let mut s = topic_prefix(card, product);
    s.append("/state");
    s
}

/// The config and state topics of one (card, product) pair share the whole
/// topic prefix and differ only in their final path segment, `/config`
/// against `/state`.
pub proof fn lemma_topics_share_prefix(card_id: Seq<char>, kind: Seq<char>)
    ensures
        spec_config_topic(card_id, kind).take(spec_topic_prefix(card_id, kind).len() as int)
            == spec_topic_prefix(card_id, kind),
        spec_state_topic(card_id, kind).take(spec_topic_prefix(card_id, kind).len() as int)
            == spec_topic_prefix(card_id, kind),
        spec_config_topic(card_id, kind).skip(spec_topic_prefix(card_id, kind).len() as int)
            == "/config"@,
        spec_state_topic(card_id, kind).skip(spec_topic_prefix(card_id, kind).len() as int)
            == "/state"@,
{
    let p = spec_topic_prefix(card_id, kind);
    assert(spec_config_topic(card_id, kind).take(p.len() as int) =~= p);
    assert(spec_state_topic(card_id, kind).take(p.len() as int) =~= p);
    assert(spec_config_topic(card_id, kind).skip(p.len() as int) =~= "/config"@);
    assert(spec_state_topic(card_id, kind).skip(p.len() as int) =~= "/state"@);
}

/// Identifier derivation is pure and deterministic: equal (card-id,
/// product-kind) inputs always yield the identical identifier, and with it
/// identical topics.
pub proof fn lemma_identifier_deterministic(
    id1: Seq<char>,
    kind1: Seq<char>,
    id2: Seq<char>,
    kind2: Seq<char>,
)
    requires
        id1 == id2,
        kind1 == kind2,
    ensures
        spec_identifier(id1, kind1) == spec_identifier(id2, kind2),
        spec_config_topic(id1, kind1) == spec_config_topic(id2, kind2),
        spec_state_topic(id1, kind1) == spec_state_topic(id2, kind2),
{
}

/// The Home Assistant device class of a product's sensor: none for punch
/// passes, `timestamp` for period passes, `monetary` for purses.
pub open spec fn spec_device_class(p: Product) -> Option<Seq<char>> {
    match p {
        Product::Punch { .. } => None,
        Product::Period { .. } => Some("timestamp"@),
        Product::Purse { .. } => Some("monetary"@),
    }
}

pub fn device_class(product: &Product) -> (r: Option<String>)
    ensures
        r is Some <==> spec_device_class(*product) is Some,
        r is Some ==> r.unwrap()@ == spec_device_class(*product).unwrap(),
{
    match product {
        Product::Punch { .. } => None,
        Product::Period { .. } => Some(String::from_str("timestamp")),
        Product::Purse { .. } => Some(String::from_str("monetary")),
    }
}

/// Builds the discovery payload for a (card, product) pair. Total: every
/// pair yields a payload. The sensor name joins the card's display name and
/// the product's name; unique id and object id are both the derived
/// identifier; the device block carries the integration's identity.
pub fn config_message(card: &Card, product: &Product) -> (r: ConfigMessage)
    ensures
        r.name@ == card.name@ + ": "@ + product.spec_name(),
        r.device_class is Some <==> spec_device_class(*product) is Some,
        r.device_class is Some ==> r.device_class.unwrap()@ == spec_device_class(
            *product,
        ).unwrap(),
        r.state_topic@ == spec_state_topic(card.id@, product.spec_kind_name()),
        r.unique_id@ == spec_identifier(card.id@, product.spec_kind_name()),
        r.object_id@ == spec_identifier(card.id@, product.spec_kind_name()),
        r.device.identifiers@.len() == 1,
        r.device.identifiers@[0]@ == spec_integration_identifier(),
        r.device.name@ == spec_integration_name(),
{
    let id = identifier(card, product);
    let mut name = String::new();
    name.append(card.name.as_str());
    name.append(": ");
    let product_name = product.name();
    name.append(product_name.as_str());
    let mut identifiers: Vec<&'static str> = Vec::new();
    identifiers.push(integration_identifier());
    ConfigMessage {
        name,
        device_class: device_class(product),
        state_topic: state_topic(card, product),
        unique_id: id.clone(),
        object_id: id,
        device: Device { identifiers, name: integration_name() },
    }
}

/// The JSON value of the `device_class` field, by product kind.
pub open spec fn spec_device_class_value(p: Product) -> Seq<char> {
    match spec_device_class(p) {
        Some(c) => "\""@ + spec_json_escape(c) + "\""@,
        None => "null"@,
    }
}

/// The full discovery payload of a (card, product) pair as its JSON wire
/// form, as a function of the card's id and name and the product alone.
pub open spec fn spec_discovery_json(
    card_id: Seq<char>,
    card_name: Seq<char>,
    product: Product,
) -> Seq<char> {
    "{\"name\":\""@ + spec_json_escape(card_name + ": "@ + product.spec_name())
        + "\",\"device_class\":"@ + spec_device_class_value(product) + ",\"state_topic\":\""@
        + spec_json_escape(spec_state_topic(card_id, product.spec_kind_name()))
        + "\",\"unique_id\":\""@ + spec_json_escape(
        spec_identifier(card_id, product.spec_kind_name()),
    ) + "\",\"object_id\":\""@ + spec_json_escape(
        spec_identifier(card_id, product.spec_kind_name()),
    ) + "\",\"device\":{\"identifiers\":["@ + ("\""@ + spec_json_escape(
        spec_integration_identifier(),
    ) + "\""@) + "],\"name\":\""@ + spec_json_escape(spec_integration_name()) + "\"}}"@
}

/// Builds the discovery payload and encodes it as JSON in one step.
pub fn discovery_json(card: &Card, product: &Product) -> (r: String)
    ensures
        r@ == spec_discovery_json(card.id@, card.name@, *product),
{
    let m = config_message(card, product);
    let r = m.to_json();
    proof {
        assert(spec_config_json(m) =~= spec_discovery_json(card.id@, card.name@, *product));
    }
    r
}

/// Relies on chrono: `NaiveDate::from_ymd_opt` accepts exactly the valid
/// calendar dates, `Local.from_local_datetime(..).single()` resolves local
/// midnight on the date to a unique instant where one exists (none across a
/// DST gap or fold), and the offset of the resolved instant is a
/// `FixedOffset`, whose seconds lie strictly between -86400 and 86400. The
/// offset depends on the machine's time zone, so nothing more is promised
/// of which value comes back.
#[verifier::external_body]
fn local_midnight_offset(d: &Date) -> (r: Option<i32>)
    ensures
        r is Some ==> -86400 < r.unwrap() < 86400,
{
    let nd = chrono::NaiveDate::from_ymd_opt(d.year as i32, d.month as u32, d.day as u32)?;
    let dt = nd.and_time(chrono::NaiveTime::MIN);
    let local = chrono::TimeZone::from_local_datetime(&chrono::Local, &dt).single()?;
    Some(local.offset().local_minus_utc())
}

/// Builds the state payload for a product, where one is representable.
///
/// Punch passes and purses always yield a bare decimal string of their
/// count or balance. A period pass yields its end date at local midnight in
/// ISO-8601 with the local UTC offset; where the local-time conversion has
/// no unique answer for that date, no payload is produced and the sensor
/// simply reports no state this cycle.
pub fn state_message(product: &Product) -> (r: Option<String>)
    requires
        product.wf(),
    ensures
        match *product {
            Product::Punch { units_left, .. } => r is Some && r.unwrap()@ == spec_decimal_signed(
                units_left as int,
            ),
            Product::Purse { balance, .. } => r is Some && r.unwrap()@ == spec_decimal_signed(
                balance as int,
            ),
            Product::Period { end, .. } => match r {
                Some(s) => s@.len() == 25 && s@.take(10)
                    == crate::render::spec_date_string(end) && exists|o: int|
                    -86400 < o < 86400 && s@ == spec_iso_midnight(end, o),
                None => true,
            },
        },
{
    match product {
        Product::Punch { units_left, .. } => Some(decimal_i64(*units_left)),
        Product::Period { end, .. } => {
            match local_midnight_offset(end) {
                Some(offset) => {
                    let s = iso_midnight(end, offset);
                    proof {
                        crate::render::lemma_iso_midnight_components(*end, offset as int);
                    }
                    Some(s)
                },
                None => None,
            }
        },
        Product::Purse { balance, .. } => Some(decimal_i64(*balance)),
    }
}

} // verus!
