use block_scout::params::{
    GetAddressTokenTransfersParams, GetAddressTransactionsParams, GetBlocksParams,
    GetTokensParams, GetTransactionsParams, SearchParams,
};

fn pair(k: &str, v: &str) -> (String, String) {
    (k.to_string(), v.to_string())
}

#[test]
fn search_query_is_always_sent() {
    let params = SearchParams {
        q: "WETH".to_string(),
    };
    assert_eq!(params.query_pairs(), vec![pair("q", "WETH")]);
    // The search text is not optional: empty is still sent.
    let empty = SearchParams { q: String::new() };
    assert_eq!(empty.query_pairs(), vec![pair("q", "")]);
}

#[test]
fn empty_filters_are_omitted() {
    let params = GetTransactionsParams::default();
    assert_eq!(params.query_pairs(), vec![]);
    let params = GetBlocksParams::default();
    assert_eq!(params.query_pairs(), vec![]);
    let params = GetTokensParams::default();
    assert_eq!(params.query_pairs(), vec![]);
}

#[test]
fn nonempty_filters_appear_once_with_their_value() {
    let params = GetTransactionsParams {
        filter: "pending".to_string(),
        typ: String::new(),
        method: "transfer".to_string(),
    };
    assert_eq!(
        params.query_pairs(),
        vec![pair("filter", "pending"), pair("method", "transfer")]
    );
}

#[test]
fn type_field_uses_its_wire_name() {
    let params = GetBlocksParams {
        typ: "uncle".to_string(),
    };
    assert_eq!(params.query_pairs(), vec![pair("type", "uncle")]);
}

#[test]
fn all_fields_present_keep_serialization_order() {
    let params = GetAddressTokenTransfersParams {
        typ: "ERC-20".to_string(),
        filter: "to".to_string(),
        token: "0xdead".to_string(),
    };
    assert_eq!(
        params.query_pairs(),
        vec![pair("type", "ERC-20"), pair("filter", "to"), pair("token", "0xdead")]
    );
}

#[test]
fn single_filter_struct_round_trip() {
    let params = GetAddressTransactionsParams {
        filter: "from".to_string(),
    };
    assert_eq!(params.query_pairs(), vec![pair("filter", "from")]);
    let empty = GetAddressTransactionsParams::default();
    assert_eq!(empty.query_pairs(), vec![]);
}

#[test]
fn tokens_query_filter_is_optional() {
    let params = GetTokensParams {
        q: "USD".to_string(),
        typ: String::new(),
    };
    assert_eq!(params.query_pairs(), vec![pair("q", "USD")]);
}

#[test]
fn build_query_drops_only_empty_values() {
    let fields = vec![
        pair("a", ""),
        pair("b", "x"),
        pair("c", ""),
        pair("d", "y"),
    ];
    assert_eq!(
        block_scout::params::build_query(fields),
        vec![pair("b", "x"), pair("d", "y")]
    );
    assert_eq!(block_scout::params::build_query(vec![]), vec![]);
}
