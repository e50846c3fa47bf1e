//! API and data source: GraphQL over the Coinbase public endpoint.
//!
//! A request is a POST of `{ query, variables }` with a `CB-VERSION` header;
//! the reply's `data` is read, and an `UNAUTHENTICATED` error is reported as
//! an authentication error.

use vstd::prelude::*;
use crate::model::{CoreError, CoreErrorView};
use crate::text::{concat2, concat3, contains, contains_text};

verus! {

/// The GraphQL endpoint.
pub const GRAPHQL_URL: &'static str = "https://graphql.coinbase.com/query";

/// The API version sent in the `CB-VERSION` header.
pub const CB_VERSION: &'static str = "2021-01-11";

/// The error code by which the service reports a missing or bad credential.
pub const UNAUTHENTICATED_CODE: &'static str = "UNAUTHENTICATED";

/// The message of a reply that has neither errors nor data.
pub const NO_DATA_MESSAGE: &'static str = "graphql response has no data field";

/// The display symbol of bitcoin.
pub const BITCOIN_SYMBOL: &'static str = "BTC";

/// The query for one asset's price by display symbol, with variable `$s`.
pub const ASSET_QUERY: &'static str = "\nquery RetailAssetDetail($s: String!) {\n  assetBySymbol(symbol: $s) {\n    displaySymbol\n    name\n    latestPrice(quoteCurrency: USD) {\n      price\n      percentChanges { day }\n    }\n  }\n}\n";

/// The `Authorization` header value for an optional bearer token.
pub fn authorization_header(bearer: Option<&str>) -> (r: Option<String>)
    ensures
        match bearer {
            Some(token) => r matches Some(h) && h@ == "Bearer "@ + token@,
            None => r is None,
        },
{
    match bearer {
        Some(token) => Some(concat2("Bearer ", token)),
        None => None,
    }
}

/// What a GraphQL reply holds, as the core reads it: the text of its `errors`
/// member, if it has one, and its `data` member, if it has one.
#[derive(Debug)]
pub struct GraphQlReply<D> {
    pub errors: Option<String>,
    pub data: Option<D>,
}

/// An error outcome as text.
pub open spec fn error_view<D>(r: Result<D, CoreError>) -> Option<CoreErrorView> {
    match r {
        Ok(_) => None,
        Err(e) => Some(e@),
    }
}

/// The outcome of a GraphQL request, given its reply decoded (or the decoder's
/// error text): an undecodable reply is `Decode`; a reply with errors is
/// `Unauthenticated` when their text holds `UNAUTHENTICATED`, else `Network`
/// with that text; otherwise its data, or `Decode` when it has none.
pub fn graphql_outcome<D>(reply: Result<GraphQlReply<D>, String>) -> (r: Result<D, CoreError>)
    ensures
        match reply {
            Err(msg) => error_view(r) == Some(CoreErrorView::Decode { message: msg@ }),
            Ok(rep) => match rep.errors {
                Some(errs) => if contains_text(errs@, UNAUTHENTICATED_CODE@) {
                    error_view(r) == Some(CoreErrorView::Unauthenticated)
                } else {
                    error_view(r) == Some(CoreErrorView::Network { message: errs@ })
                },
                None => match rep.data {
                    Some(d) => r == Ok::<D, CoreError>(d),
                    None => error_view(r) == Some(CoreErrorView::Decode { message: NO_DATA_MESSAGE@ }),
                },
            },
        },
{
    match reply {
        Err(msg) => Err(CoreError::Decode { message: msg }),
        Ok(rep) => match rep.errors {
            Some(errs) => {
                if contains(errs.as_str(), UNAUTHENTICATED_CODE) {
                    Err(CoreError::Unauthenticated)
                } else {
                    Err(CoreError::Network { message: errs })
                }
            },
            None => match rep.data {
                Some(d) => Ok(d),
                None => Err(CoreError::Decode { message: String::from_str(NO_DATA_MESSAGE) }),
            },
        },
    }
}

/// The fields of an asset node that the core reads: `displaySymbol`, `name`
/// and `latestPrice.price`, each when it is present as a string.
#[derive(Debug)]
pub struct AssetFields {
    pub display_symbol: Option<String>,
    pub name: Option<String>,
    pub price: Option<String>,
}

/// What the reply's `assetBySymbol` member is.
#[derive(Debug)]
pub enum AssetLookup {
    /// The member is missing.
    Absent,
    /// The member is JSON null.
    Null,
    /// The member is an asset node.
    Found(AssetFields),
}

/// An asset's price record, but for its daily change.
#[derive(Debug)]
pub struct AssetQuote {
    pub symbol: String,
    pub name: String,
    pub price_usd: String,
}

/// An asset quote as text.
pub struct AssetQuoteView {
    pub symbol: Seq<char>,
    pub name: Seq<char>,
    pub price_usd: Seq<char>,
}

impl View for AssetQuote {
    type V = AssetQuoteView;

    open spec fn view(&self) -> AssetQuoteView {
        AssetQuoteView { symbol: self.symbol@, name: self.name@, price_usd: self.price_usd@ }
    }
}

/// The text of an optional string, or `default` when it is absent.
pub open spec fn text_or(o: Option<String>, default: Seq<char>) -> Seq<char> {
    match o {
        Some(s) => s@,
        None => default,
    }
}

/// The message of the error for an asset that the service does not know.
pub open spec fn no_asset_message(symbol: Seq<char>) -> Seq<char> {
    "no asset '"@ + symbol + "'"@
}

/// The quote for the asset looked up by `symbol`: a missing or null node is
/// `NotFound`; otherwise the node's symbol (default: `symbol`), name
/// (default: empty) and price (default: `0`).
pub fn asset_quote(symbol: &str, lookup: AssetLookup) -> (r: Result<AssetQuote, CoreError>)
    ensures
        match lookup {
            AssetLookup::Found(f) => r matches Ok(q) && q@ == (AssetQuoteView {
                symbol: text_or(f.display_symbol, symbol@),
                name: text_or(f.name, Seq::empty()),
                price_usd: text_or(f.price, "0"@),
            }),
            _ => error_view(r) == Some(CoreErrorView::NotFound { message: no_asset_message(symbol@) }),
        },
        lookup matches AssetLookup::Found(f) ==> r is Ok,
        (lookup is Found && lookup->0.display_symbol is Some) ==> (r matches Ok(q) && q@.symbol
            == lookup->0.display_symbol->0@),
        (lookup is Found && lookup->0.name is Some) ==> (r matches Ok(q) && q@.name
            == lookup->0.name->0@),
        (lookup is Found && lookup->0.price is Some) ==> (r matches Ok(q) && q@.price_usd
            == lookup->0.price->0@),
        (lookup is Found && lookup->0.display_symbol is None) ==> (r matches Ok(q) && q@.symbol
            == symbol@),
        (lookup is Found && lookup->0.name is None) ==> (r matches Ok(q) && q@.name.len() == 0),
        (lookup is Found && lookup->0.price is None) ==> (r matches Ok(q) && q@.price_usd == "0"@),
{
    match lookup {
        AssetLookup::Found(f) => {
            let sym = match f.display_symbol {
                Some(s) => s,
                None => String::from_str(symbol),
            };
            let name = match f.name {
                Some(s) => s,
                None => String::new(),
            };
            let price_usd = match f.price {
                Some(s) => s,
                None => String::from_str("0"),
            };
            Ok(AssetQuote { symbol: sym, name, price_usd })
        },
        _ => Err(CoreError::NotFound { message: concat3("no asset '", symbol, "'") }),
    }
}

/// A field that the node has is taken as given, whatever the default; a
/// field it lacks is the default.
pub proof fn lemma_present_field_kept(s: String, default: Seq<char>)
    ensures
        text_or(Some(s), default) == s@,
        text_or(None, default) == default,
{
}

/// The quote of a found node keeps each field the node has, unchanged, and
/// uses the defaults (the asked symbol, an empty name, the price `0`) only
/// for fields it lacks.
pub proof fn lemma_quote_fields(symbol: Seq<char>, f: AssetFields)
    ensures
        f.display_symbol matches Some(s) ==> text_or(f.display_symbol, symbol) == s@,
        f.name matches Some(n) ==> text_or(f.name, Seq::empty()) == n@,
        f.price matches Some(p) ==> text_or(f.price, "0"@) == p@,
        f.display_symbol is None ==> text_or(f.display_symbol, symbol) == symbol,
        f.name is None ==> text_or(f.name, Seq::empty()).len() == 0,
        f.price is None ==> text_or(f.price, "0"@) == "0"@,
{
}

} // verus!
