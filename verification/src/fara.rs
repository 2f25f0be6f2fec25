//! The vendor API side of the bridge: request shapes, URL derivation, and
//! the authorization header, as plain verified computation. The HTTP calls
//! themselves live outside the library and hand it the decoded responses.

pub mod models;

use vstd::prelude::*;
use crate::fara::models::TravelCardResponse;
use crate::models::{Card, CardWithProducts};

verus! {

/// The vendor's OAuth token endpoint.
pub open spec fn spec_token_url() -> Seq<char> {
    "https://oauth.api.fara.no/oauth/token"@
}

pub fn token_url() -> (r: &'static str)
    ensures
        r@ == spec_token_url(),
{
    "https://oauth.api.fara.no/oauth/token"
}

/// A vendor API URL: the fixed base, the tenant code, then the call's own
/// path.
pub open spec fn spec_api_url(pta: Seq<char>, path: Seq<char>) -> Seq<char> {
    "https://webshop.api.fara.no/api/ptas"@ + "/"@ + pta + "/"@ + path
}

pub fn api_url(pta: &str, path: &str) -> (r: String)
    ensures
        r@ == spec_api_url(pta@, path@),
{
    let mut s = String::from_str("https://webshop.api.fara.no/api/ptas");
    s.append("/");
    s.append(pta);
    s.append("/");
    s.append(path);
    s
}

/// The URL of a user's travel card listing.
pub open spec fn spec_travelcards_url(pta: Seq<char>, username: Seq<char>) -> Seq<char> {
    spec_api_url(pta, "users/"@ + username + "/travelcards"@)
}

pub fn travelcards_url(pta: &str, username: &str) -> (r: String)
    ensures
        r@ == spec_travelcards_url(pta@, username@),
{
    let mut path = String::from_str("users/");
    path.append(username);
    path.append("/travelcards");
    api_url(pta, path.as_str())
}

/// The URL of one travel card's product listing.
pub open spec fn spec_travelcard_products_url(
    pta: Seq<char>,
    username: Seq<char>,
    travelcard_id: Seq<char>,
) -> Seq<char> {
    spec_api_url(pta, "users/"@ + username + "/travelcard/"@ + travelcard_id + "/products"@)
}

pub fn travelcard_products_url(pta: &str, username: &str, travelcard_id: &str) -> (r: String)
    ensures
        r@ == spec_travelcard_products_url(pta@, username@, travelcard_id@),
{
    let mut path = String::from_str("users/");
    path.append(username);
    path.append("/travelcard/");
    path.append(travelcard_id);
    path.append("/products");
    api_url(pta, path.as_str())
}

/// What the standard padded base64 encoding returns for a string's bytes.
/// The encoding is a function of the input alone.
pub uninterp spec fn base64_standard_of(s: Seq<char>) -> Seq<char>;

/// Relies on base64: `Engine::encode` with the `STANDARD` engine encodes
/// the input's bytes as padded standard base64, a deterministic function
/// of the input; it panics only when the encoded size overflows `usize`,
/// which the length bound rules out.
#[verifier::external_body]
fn base64_standard(s: &str) -> (r: String)
    requires
        s@.len() <= 1000000,
    ensures
        r@ == base64_standard_of(s@),
{
    <base64::engine::general_purpose::GeneralPurpose as base64::Engine>::encode(
        &base64::engine::general_purpose::STANDARD,
        s.as_bytes(),
    )
}

/// The HTTP basic authorization header value that the token request
/// carries: `Basic ` and the base64 encoding of `<client-id>:password`.
pub open spec fn spec_basic_authorization(client_id: Seq<char>) -> Seq<char> {
    "Basic "@ + base64_standard_of(client_id + ":password"@)
}

pub fn basic_authorization(client_id: &str) -> (r: String)
    requires
        client_id@.len() < 1000,
    ensures
        r@ == spec_basic_authorization(client_id@),
{
    let mut joined = String::from_str(client_id);
    joined.append(":password");
    proof {
        reveal_strlit(":password");
    }
    let encoded = base64_standard(joined.as_str());
    let mut s = String::from_str("Basic ");
    s.append(encoded.as_str());
    s
}

/// Maps the vendor's card listing to cards with empty product lists,
/// keeping the response order: the card number becomes the id, the
/// description the display name.
pub fn cards_from_response(resp: &TravelCardResponse) -> (r: Vec<CardWithProducts>)
    ensures
        r@.len() == resp.cards@.len(),
        forall|i: int|
            0 <= i < r@.len() ==> r@[i].card.id@ == resp.cards@[i].card_no@ && r@[i].card.name@
                == resp.cards@[i].description@ && r@[i].products@.len() == 0,
{
    let mut out: Vec<CardWithProducts> = Vec::new();
    let mut i: usize = 0;
    while i < resp.cards.len()
        invariant
            i <= resp.cards@.len(),
            out@.len() == i,
            forall|k: int|
                0 <= k < i ==> out@[k].card.id@ == resp.cards@[k].card_no@ && out@[k].card.name@
                    == resp.cards@[k].description@ && out@[k].products@.len() == 0,
        decreases resp.cards@.len() - i,
    {
        let card = Card {
            id: resp.cards[i].card_no.clone(),
            name: resp.cards[i].description.clone(),
        };
        out.push(CardWithProducts { card, products: Vec::new() });
        i = i + 1;
    }
    out
}

} // verus!
