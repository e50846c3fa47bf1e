use app_core::graphql::{
    asset_quote, authorization_header, graphql_outcome, AssetFields, AssetLookup, GraphQlReply,
    ASSET_QUERY, BITCOIN_SYMBOL, CB_VERSION, GRAPHQL_URL,
};
use app_core::model::CoreError;

#[test]
fn bearer_header() {
    assert_eq!(authorization_header(Some("abc")).as_deref(), Some("Bearer abc"));
    assert_eq!(authorization_header(None), None);
}

#[test]
fn endpoint_constants() {
    assert_eq!(GRAPHQL_URL, "https://graphql.coinbase.com/query");
    assert_eq!(CB_VERSION, "2021-01-11");
    assert_eq!(BITCOIN_SYMBOL, "BTC");
    assert!(ASSET_QUERY.contains("assetBySymbol(symbol: $s)"));
}

#[test]
fn unauthenticated_errors() {
    let r = graphql_outcome::<u32>(Ok(GraphQlReply {
        errors: Some("[{\"extensions\":{\"code\":\"UNAUTHENTICATED\"}}]".to_string()),
        data: Some(1),
    }));
    assert!(matches!(r, Err(CoreError::Unauthenticated)));
}

#[test]
fn other_errors_are_network_errors() {
    let r = graphql_outcome::<u32>(Ok(GraphQlReply {
        errors: Some("[{\"message\":\"boom\"}]".to_string()),
        data: Some(1),
    }));
    match r {
        Err(CoreError::Network { message }) => assert_eq!(message, "[{\"message\":\"boom\"}]"),
        other => panic!("expected Network, got {:?}", other),
    }
}

#[test]
fn data_is_returned() {
    let r = graphql_outcome::<u32>(Ok(GraphQlReply { errors: None, data: Some(7) }));
    assert_eq!(r.ok(), Some(7));
}

#[test]
fn missing_data_is_decode_error() {
    let r = graphql_outcome::<u32>(Ok(GraphQlReply { errors: None, data: None }));
    match r {
        Err(CoreError::Decode { message }) => assert_eq!(message, "graphql response has no data field"),
        other => panic!("expected Decode, got {:?}", other),
    }
}

#[test]
fn undecodable_reply_is_decode_error() {
    let r = graphql_outcome::<u32>(Err("EOF while parsing".to_string()));
    match r {
        Err(CoreError::Decode { message }) => assert_eq!(message, "EOF while parsing"),
        other => panic!("expected Decode, got {:?}", other),
    }
}

#[test]
fn absent_or_null_asset_is_not_found() {
    for lookup in [AssetLookup::Absent, AssetLookup::Null] {
        match asset_quote("DOGE", lookup) {
            Err(CoreError::NotFound { message }) => assert_eq!(message, "no asset 'DOGE'"),
            other => panic!("expected NotFound, got {:?}", other),
        }
    }
}

#[test]
fn asset_fields_with_defaults() {
    let q = asset_quote(
        "btc",
        AssetLookup::Found(AssetFields { display_symbol: None, name: None, price: None }),
    )
    .expect("found");
    assert_eq!(q.symbol, "btc");
    assert_eq!(q.name, "");
    assert_eq!(q.price_usd, "0");
}

#[test]
fn asset_fields_as_given() {
    let q = asset_quote(
        "btc",
        AssetLookup::Found(AssetFields {
            display_symbol: Some("BTC".to_string()),
            name: Some("Bitcoin".to_string()),
            price: Some("64000.12".to_string()),
        }),
    )
    .expect("found");
    assert_eq!(q.symbol, "BTC");
    assert_eq!(q.name, "Bitcoin");
    assert_eq!(q.price_usd, "64000.12");
}
