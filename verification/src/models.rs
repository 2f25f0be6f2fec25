//! The normalized fare-product data model.
//!
//! A `Card` is a vendor travel card; a `Product` is one of the three fare
//! product kinds it can carry. Purse balances are held as integers in the
//! vendor's minor currency units, the representation the vendor's record
//! format itself uses.

use vstd::prelude::*;
use crate::date::Date;
use crate::homeassistant::helpers;
use crate::homeassistant::models::ConfigMessage;
use crate::render::{spec_decimal_signed, spec_iso_midnight};

verus! {

/// A travel card: the vendor card number and its display description.
#[derive(Clone, Debug, PartialEq, Eq)]
pub struct Card {
    pub id: String,
    pub name: String,
}

/// A normalized fare product: a countable-use punch pass, a validity-window
/// period pass, or a stored-value purse (balance in minor currency units).
#[derive(Clone, Debug, PartialEq)]
pub enum Product {
    Punch { name: String, units_left: i64 },
    Period { name: String, start: Date, end: Date },
    Purse { name: String, balance: i64 },
}

/// The mathematical model of a product: names as character sequences,
/// counts and balances as unbounded integers.
pub ghost enum ProductModel {
    Punch { name: Seq<char>, units_left: int },
    Period { name: Seq<char>, start: Date, end: Date },
    Purse { name: Seq<char>, balance: int },
}

impl View for Product {
    type V = ProductModel;

    open spec fn view(&self) -> ProductModel {
        match *self {
            Product::Punch { name, units_left } => ProductModel::Punch {
                name: name@,
                units_left: units_left as int,
            },
            Product::Period { name, start, end } => ProductModel::Period {
                name: name@,
                start,
                end,
            },
            Product::Purse { name, balance } => ProductModel::Purse {
                name: name@,
                balance: balance as int,
            },
        }
    }
}

impl Product {
    /// Well-formedness: any dates a product carries are valid calendar
    /// dates. Products built by the normalizer from well-formed records
    /// satisfy this.
    pub open spec fn wf(self) -> bool {
        match self {
            Product::Period { start, end, .. } => start.valid() && end.valid(),
            _ => true,
        }
    }

    /// The display name of a product, whatever its kind.
    pub open spec fn spec_name(self) -> Seq<char> {
        match self {
            Product::Punch { name, .. } => name@,
            Product::Period { name, .. } => name@,
            Product::Purse { name, .. } => name@,
        }
    }

    /// The lowercase tag of a product's kind, one of `punch`, `period`,
    /// `purse`.
    pub open spec fn spec_kind_name(self) -> Seq<char> {
        match self {
            Product::Punch { .. } => "punch"@,
            Product::Period { .. } => "period"@,
            Product::Purse { .. } => "purse"@,
        }
    }

    pub fn name(&self) -> (r: String)
        ensures
            r@ == self.spec_name(),
    {
        match self {
            Product::Punch { name, .. } => name.clone(),
            Product::Period { name, .. } => name.clone(),
            Product::Purse { name, .. } => name.clone(),
        }
    }

    pub fn kind_name(&self) -> (r: String)
        ensures
            r@ == self.spec_kind_name(),
    {
        match self {
            Product::Punch { .. } => String::from_str("punch"),
            Product::Period { .. } => String::from_str("period"),
            Product::Purse { .. } => String::from_str("purse"),
        }
    }
}

/// A card together with its normalized products, in vendor response order.
#[derive(Debug)]
pub struct CardWithProducts {
    pub card: Card,
    pub products: Vec<Product>,
}

/// One (card, product) pairing: the unit of publication.
pub struct CardProduct {
    pub card: Card,
    pub product: Product,
}

impl CardProduct {
    pub fn new(card: Card, product: Product) -> (r: CardProduct)
        ensures
            r.card == card,
            r.product == product,
    {
        CardProduct { card, product }
    }

    /// The discovery payload for this pairing.
    pub fn config_message(&self) -> (r: ConfigMessage)
        ensures
            r.name@ == self.card.name@ + ": "@ + self.product.spec_name(),
            r.device_class is Some <==> helpers::spec_device_class(self.product) is Some,
            r.device_class is Some ==> r.device_class.unwrap()@ == helpers::spec_device_class(
                self.product,
            ).unwrap(),
            r.state_topic@ == helpers::spec_state_topic(
                self.card.id@,
                self.product.spec_kind_name(),
            ),
            r.unique_id@ == helpers::spec_identifier(self.card.id@, self.product.spec_kind_name()),
            r.object_id@ == helpers::spec_identifier(self.card.id@, self.product.spec_kind_name()),
            r.device.identifiers@.len() == 1,
            r.device.identifiers@[0]@ == helpers::spec_integration_identifier(),
            r.device.name@ == helpers::spec_integration_name(),
    {
        helpers::config_message(&self.card, &self.product)
    }

    /// The state payload for this pairing, where one is representable.
    pub fn state_message(&self) -> (r: Option<String>)
        requires
            self.product.wf(),
        ensures
            match self.product {
                Product::Punch { units_left, .. } => r is Some && r.unwrap()@
                    == spec_decimal_signed(units_left as int),
                Product::Purse { balance, .. } => r is Some && r.unwrap()@ == spec_decimal_signed(
                    balance as int,
                ),
                Product::Period { end, .. } => match r {
                    Some(s) => s@.len() == 25 && s@.take(10)
                        == crate::render::spec_date_string(end) && exists|o: int|
                        -86400 < o < 86400 && s@ == spec_iso_midnight(end, o),
                    None => true,
                },
            },
    {
        helpers::state_message(&self.product)
    }
}

} // verus!
