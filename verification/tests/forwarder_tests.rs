use block_scout::cache::{LookupOutcome, API};
use block_scout::forwarder::{self, ForwardError};
use block_scout::params::{
    GetAddressNftsParams, GetTransactionTokenTransfersParams, SearchParams,
};

#[test]
fn search_request_for_chain_one() {
    let spec = forwarder::search(
        1,
        &SearchParams {
            q: "WETH".to_string(),
        },
    );
    assert_eq!(spec.chain_id, 1);
    assert_eq!(spec.path, "search");
    assert_eq!(
        spec.query,
        vec![("q".to_string(), "WETH".to_string())]
    );
    let url = forwarder::request_url("https://eth.blockscout.com/", &spec.path);
    assert_eq!(url, "https://eth.blockscout.com/api/v2/search");
}

#[test]
fn override_chain_requests_use_fixed_base_url() {
    // Whatever the cache or registry state, the override chain's base URL
    // is fixed, so every operation's URL starts with it.
    let api = API::new();
    let base = match api.lookup_explorer_url(4200) {
        LookupOutcome::Resolved(url) => url,
        _ => panic!("override id must resolve without a fetch"),
    };
    let spec = forwarder::get_stats(4200);
    let url = forwarder::request_url(&base, &spec.path);
    assert_eq!(url, "https://scan.merlinverify.com/api/v2/stats");
}

#[test]
fn entity_paths_embed_their_identifiers() {
    assert_eq!(
        forwarder::get_transaction_info(1, "0xabc").path,
        "transactions/0xabc"
    );
    assert_eq!(
        forwarder::get_transaction_token_transfers(
            1,
            "0xabc",
            &GetTransactionTokenTransfersParams::default()
        )
        .path,
        "transactions/0xabc/token-transfers"
    );
    assert_eq!(
        forwarder::get_block_withdrawals(1, "19000000").path,
        "blocks/19000000/withdrawals"
    );
    assert_eq!(
        forwarder::get_address_coin_balance_history_by_day(1, "0xfeed").path,
        "addresses/0xfeed/coin-balance-history-by-day"
    );
    assert_eq!(
        forwarder::get_address_nft_collections(1, "0xfeed", &GetAddressNftsParams::default())
            .path,
        "addresses/0xfeed/nft/collections"
    );
}

#[test]
fn token_instance_paths_render_the_instance_id() {
    assert_eq!(
        forwarder::get_token_instance_info(1, "0xdead", 42).path,
        "tokens/0xdead/instances/42"
    );
    assert_eq!(
        forwarder::get_token_instance_transfers(1, "0xdead", 0).path,
        "tokens/0xdead/instances/0/transfers"
    );
    assert_eq!(
        forwarder::get_token_instance_holders(1, "0xdead", 7).path,
        "tokens/0xdead/instances/7/holders"
    );
    assert_eq!(
        forwarder::get_token_instance_transfers_count(1, "0xdead", u64::MAX).path,
        "tokens/0xdead/instances/18446744073709551615/transfers-count"
    );
}

#[test]
fn parameterless_operations_have_empty_queries() {
    let spec = forwarder::get_transfers(1);
    assert_eq!(spec.path, "token-transfers");
    assert!(spec.query.is_empty());
    assert_eq!(forwarder::get_addresses(1).path, "addresses");
    assert_eq!(forwarder::get_internal_transactions(1).path, "internal-transactions");
    assert_eq!(forwarder::get_withdrawals(1).path, "withdrawals");
}

#[test]
fn non_success_status_fails_with_its_code() {
    let r = forwarder::interpret_response(404, "{}");
    assert_eq!(r.unwrap_err(), ForwardError::RequestFailed(404));
    let r = forwarder::interpret_response(500, "ignored");
    assert_eq!(r.unwrap_err(), ForwardError::RequestFailed(500));
}

#[test]
fn unparseable_body_fails_decode() {
    let r = forwarder::interpret_response(200, "not json at all");
    assert_eq!(r.unwrap_err(), ForwardError::DecodeFailed);
}

#[test]
fn successful_body_is_returned_verbatim() {
    let r = forwarder::interpret_response(200, "{\"items\": []}");
    let value = r.unwrap();
    assert_eq!(serde_json::to_string(&value).unwrap(), "{\"items\":[]}");
}

#[test]
fn forward_error_messages() {
    assert_eq!(
        ForwardError::UpstreamUnavailable.message(),
        "explorer url unavailable"
    );
    assert_eq!(
        ForwardError::RequestFailed(404).message(),
        "request failed: 404"
    );
    assert_eq!(ForwardError::DecodeFailed.message(), "invalid json response");
}

#[test]
fn decimal_renderings_are_exact() {
    assert_eq!(block_scout::decimal::u64_to_string(0), "0");
    assert_eq!(block_scout::decimal::u64_to_string(1234567890), "1234567890");
    assert_eq!(block_scout::decimal::i32_to_string(-17), "-17");
    assert_eq!(block_scout::decimal::i32_to_string(i32::MIN), "-2147483648");
    assert_eq!(block_scout::decimal::i32_to_string(i32::MAX), "2147483647");
}

#[test]
fn resolver_failure_maps_to_upstream_unavailable() {
    assert_eq!(
        forwarder::upstream_failure(block_scout::ResolveError::LookupFailed),
        ForwardError::UpstreamUnavailable
    );
    assert_eq!(
        forwarder::upstream_failure(block_scout::ResolveError::NoExplorerAvailable),
        ForwardError::UpstreamUnavailable
    );
}
