//! The vendor API's record shapes and the fare-product normalizer.
//!
//! A `FaraTravelProduct` is one raw product row as the vendor returns it:
//! a `product_type` tag plus optional fields. `to_product` is the
//! normalizer: it maps a row into the closed product model, and yields
//! nothing — dropping the row, not failing — where the tag is unknown or a
//! field the tag requires is absent.

use vstd::prelude::*;
use crate::date::Date;
use crate::models::{Product, ProductModel};

verus! {

/// The body of the vendor token request: the credentials and the fixed
/// grant parameters of the vendor's password grant.
pub struct TokenRequest {
    pub fs_username: String,
    pub fs_password: String,
    pub fs_pta: String,
    pub fs_privacy_policy_accepted: bool,
    pub grant_type: String,
    pub client_id: String,
    pub scope: String,
}

impl TokenRequest {
    /// Builds the token request for the given credentials: the privacy
    /// flag stays unset, the grant type is `password`, the scope `read`.
    pub fn new(username: String, password: String, pta: String, client_id: String) -> (r:
        TokenRequest)
        ensures
            r.fs_username == username,
            r.fs_password == password,
            r.fs_pta == pta,
            r.fs_privacy_policy_accepted == false,
            r.grant_type@ == "password"@,
            r.client_id == client_id,
            r.scope@ == "read"@,
    {
        TokenRequest {
            fs_username: username,
            fs_password: password,
            fs_pta: pta,
            fs_privacy_policy_accepted: false,
            grant_type: String::from_str("password"),
            client_id,
            scope: String::from_str("read"),
        }
    }
}

/// The vendor's token response; only the access token is read.
pub struct TokenResponse {
    pub access_token: String,
    pub token_type: String,
    pub expires_in: usize,
    pub scope: String,
}

/// One travel card row of the vendor's card listing.
pub struct FaraTravelCard {
    pub card_no: String,
    pub description: String,
}

/// The vendor's card listing response.
pub struct TravelCardResponse {
    pub cards: Vec<FaraTravelCard>,
}

/// One raw product row of the vendor's product listing.
#[derive(Clone, Debug)]
pub struct FaraTravelProduct {
    pub status: Option<String>,
    pub product_type: String,
    pub template_name: Option<String>,
    pub start_validity: Option<Date>,
    pub end_validity: Option<Date>,
    pub units_left: i64,
    pub balance: i64,
    pub currency: Option<String>,
}

impl FaraTravelProduct {
    /// Well-formedness: any validity dates present are valid calendar
    /// dates.
    pub open spec fn wf(self) -> bool {
        (self.start_validity is Some ==> self.start_validity.unwrap().valid())
            && (self.end_validity is Some ==> self.end_validity.unwrap().valid())
    }
}

/// What the normalizer yields for one raw row, over the product model:
///
/// - `PUNCH` requires a template name; the units counter defaults to its
///   field default of zero when the vendor omitted it.
/// - `PERIOD` requires a template name and both validity dates.
/// - `PURSE` requires a currency code, which becomes the display name; the
///   balance likewise defaults to zero.
/// - any other tag, or a missing required field, yields nothing.
pub open spec fn spec_normalize(r: FaraTravelProduct) -> Option<ProductModel> {
    if r.product_type@ == "PUNCH"@ {
        match r.template_name {
            Some(name) => Some(
                ProductModel::Punch { name: name@, units_left: r.units_left as int },
            ),
            None => None,
        }
    } else if r.product_type@ == "PERIOD"@ {
        if r.template_name is Some && r.start_validity is Some && r.end_validity is Some {
            Some(
                ProductModel::Period {
                    name: r.template_name.unwrap()@,
                    start: r.start_validity.unwrap(),
                    end: r.end_validity.unwrap(),
                },
            )
        } else {
            None
        }
    } else if r.product_type@ == "PURSE"@ {
        match r.currency {
            Some(name) => Some(ProductModel::Purse { name: name@, balance: r.balance as int }),
            None => None,
        }
    } else {
        None
    }
}

impl FaraTravelProduct {
    /// Normalizes this raw row: yields the product `spec_normalize` names,
    /// or nothing exactly where it names none.
    pub fn to_product(&self) -> (r: Option<Product>)
        ensures
            r is Some <==> spec_normalize(*self) is Some,
            r is Some ==> r.unwrap()@ == spec_normalize(*self).unwrap(),
            r is Some && self.wf() ==> r.unwrap().wf(),
    {
        if self.product_type == String::from_str("PUNCH") {
            match &self.template_name {
                Some(name) => Some(
                    Product::Punch { name: name.clone(), units_left: self.units_left },
                ),
                None => None,
            }
        } else if self.product_type == String::from_str("PERIOD") {
            match (&self.template_name, &self.start_validity, &self.end_validity) {
                (Some(name), Some(start), Some(end)) => Some(
                    Product::Period { name: name.clone(), start: *start, end: *end },
                ),
                _ => None,
            }
        } else if self.product_type == String::from_str("PURSE") {
            match &self.currency {
                Some(name) => Some(Product::Purse { name: name.clone(), balance: self.balance }),
                None => None,
            }
        } else {
            None
        }
    }
}

/// A `PUNCH`-tagged record with a template name always normalizes to a
/// punch pass carrying that name and the record's units counter; one
/// without a template name normalizes to nothing.
pub proof fn lemma_normalize_punch(r: FaraTravelProduct)
    requires
        r.product_type@ == "PUNCH"@,
    ensures
        r.template_name is Some ==> spec_normalize(r) == Some(
            ProductModel::Punch {
                name: r.template_name.unwrap()@,
                units_left: r.units_left as int,
            },
        ),
        r.template_name is None ==> spec_normalize(r) is None,
{
}

/// A record with an unrecognized product-type tag normalizes to nothing,
/// whatever its other fields hold.
pub proof fn lemma_normalize_unknown(r: FaraTravelProduct)
    requires
        r.product_type@ != "PUNCH"@,
        r.product_type@ != "PERIOD"@,
        r.product_type@ != "PURSE"@,
    ensures
        spec_normalize(r) is None,
{
}

/// A `PERIOD`-tagged record missing either validity date — in particular
/// one missing both — never produces a period product.
pub proof fn lemma_normalize_period_needs_dates(r: FaraTravelProduct)
    requires
        r.product_type@ == "PERIOD"@,
        r.start_validity is None || r.end_validity is None,
    ensures
        spec_normalize(r) is None,
{
    reveal_strlit("PUNCH");
    reveal_strlit("PERIOD");
    assert("PUNCH"@.len() == 5);
    assert("PERIOD"@.len() == 6);
    assert(r.product_type@ != "PUNCH"@);
}

/// The models of a sequence of products, element-wise.
pub open spec fn product_views(s: Seq<Product>) -> Seq<ProductModel> {
    s.map_values(|p: Product| p@)
}

/// The normalization of a whole vendor response: each row's product in
/// response order, rows that normalize to nothing dropped.
pub open spec fn spec_normalize_all(rs: Seq<FaraTravelProduct>) -> Seq<ProductModel>
    decreases rs.len(),
{
    if rs.len() == 0 {
        Seq::empty()
    } else {
        spec_normalize_all(rs.drop_last()) + (match spec_normalize(rs.last()) {
            Some(p) => seq![p],
            None => Seq::empty(),
        })
    }
}

/// Filtering never lengthens: the normalization of a record sequence has
/// at most as many products as the sequence has records.
pub proof fn lemma_normalize_all_shorter(rs: Seq<FaraTravelProduct>)
    ensures
        spec_normalize_all(rs).len() <= rs.len(),
    decreases rs.len(),
{
    if rs.len() > 0 {
        lemma_normalize_all_shorter(rs.drop_last());
    }
}

/// Normalizes a vendor product listing, filtering out every row that
/// yields no product. The output order is the response order; the output
/// may be shorter than the input.
pub fn products_from_records(records: &Vec<FaraTravelProduct>) -> (r: Vec<Product>)
    ensures
        product_views(r@) == spec_normalize_all(records@),
        (forall|i: int| 0 <= i < records@.len() ==> records@[i].wf()) ==> (forall|j: int|
            0 <= j < r@.len() ==> r@[j].wf()),
{
    let mut out: Vec<Product> = Vec::new();
    let mut i: usize = 0;
    while i < records.len()
        invariant
            i <= records@.len(),
            product_views(out@) == spec_normalize_all(records@.take(i as int)),
            (forall|k: int| 0 <= k < records@.len() ==> records@[k].wf()) ==> (forall|j: int|
                0 <= j < out@.len() ==> out@[j].wf()),
        decreases records@.len() - i,
    {
        let ghost prefix = records@.take(i as int);
        match records[i].to_product() {
            Some(p) => {
                out.push(p);
                proof {
                    assert(records@.take(i + 1).drop_last() =~= prefix);
                    assert(records@.take(i + 1).last() == records@[i as int]);
                    assert(product_views(out@) =~= spec_normalize_all(records@.take(i + 1)));
                }
            },
            None => {
                proof {
                    assert(records@.take(i + 1).drop_last() =~= prefix);
                    assert(records@.take(i + 1).last() == records@[i as int]);
                    assert(product_views(out@) =~= spec_normalize_all(records@.take(i + 1)));
                }
            },
        }
        i = i + 1;
    }
    proof {
        assert(records@.take(records@.len() as int) =~= records@);
    }
    out
}

} // verus!
