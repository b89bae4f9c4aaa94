use vstd::prelude::*;
use serde_json::Value;
use crate::ResolveError;
use crate::decimal::dec_digits;
use crate::decimal::u64_to_string;
use crate::params::GetAddressInternalTransactionsParams;
use crate::params::GetAddressNftsParams;
use crate::params::GetAddressTokenTransfersParams;
use crate::params::GetAddressTokensParams;
use crate::params::GetAddressTransactionsParams;
use crate::params::GetBlocksParams;
use crate::params::GetTokensParams;
use crate::params::GetTransactionTokenTransfersParams;
use crate::params::GetTransactionsParams;
use crate::params::PairModel;
use crate::params::SearchParams;
use crate::params::pairs_view;

verus! {

/// A failure while forwarding one request to an explorer's API.
#[derive(Clone, Copy, Debug, PartialEq, Eq, Structural)]
pub enum ForwardError {
    /// The explorer base URL could not be resolved.
    UpstreamUnavailable,
    /// The explorer answered with this non-success HTTP status.
    RequestFailed(u16),
    /// The explorer's response body was not valid JSON.
    DecodeFailed,
}

impl ForwardError {
    /// A human-readable description of the failure.
    pub fn message(&self) -> (r: String)
        ensures
            match self {
                ForwardError::UpstreamUnavailable => r@ == "explorer url unavailable"@,
                ForwardError::RequestFailed(status) => r@ == "request failed: "@ + dec_digits(
                    *status as int,
                ),
                ForwardError::DecodeFailed => r@ == "invalid json response"@,
            },
    {
        match self {
            ForwardError::UpstreamUnavailable => String::from_str("explorer url unavailable"),
            ForwardError::RequestFailed(status) => {
                let mut r = String::from_str("request failed: ");
                let digits = u64_to_string(*status as u64);
                r.append(digits.as_str());
                r
            },
            ForwardError::DecodeFailed => String::from_str("invalid json response"),
        }
    }
}

/// One request the forwarder is to issue: the chain whose explorer is to
/// answer it, the path below the explorer's API root, and the query
/// parameters to attach.
pub struct RequestSpec {
    pub chain_id: i32,
    pub path: String,
    pub query: Vec<(String, String)>,
}

/// The full request URL below an explorer's base URL, before the query:
/// the API root prefix, then the operation's path.
pub fn request_url(base: &str, path: &str) -> (r: String)
    ensures
        r@ == base@ + "api/v2/"@ + path@,
{
    let mut r = String::from_str(base);
    r.append("api/v2/");
    r.append(path);
    r
}

/// The forwarder's decision when the resolver failed: the request is not
/// attempted, and the operation fails with `UpstreamUnavailable`.
pub fn upstream_failure(_e: ResolveError) -> (r: ForwardError)
    ensures
        r == ForwardError::UpstreamUnavailable,
{
    ForwardError::UpstreamUnavailable
}

#[verifier::external_type_specification]
#[verifier::external_body]
pub struct ExValue(Value);

/// Whether this text is one valid JSON document, as serde_json accepts
/// it; a function of the text alone.
pub uninterp spec fn json_parses(s: Seq<char>) -> bool;

/// Relies on serde_json::from_str::<Value>: parses a self-describing JSON
/// document into a Value; success depends on the input text alone.
#[verifier::external_body]
fn parse_json_value(body: &str) -> (r: Option<Value>)
    ensures
        r is Some <==> json_parses(body@),
{
    serde_json::from_str(body).ok()
}

/// The forwarder's reading of an explorer's answer: a non-success status
/// fails with `RequestFailed(status)`, a success status with an
/// unparseable body fails with `DecodeFailed`, and otherwise the parsed
/// JSON body is returned verbatim.
pub fn interpret_response(status: u16, body: &str) -> (r: Result<Value, ForwardError>)
    ensures
        status != 200 ==> r == Err::<Value, ForwardError>(ForwardError::RequestFailed(status)),
        status == 200 && !json_parses(body@) ==> r == Err::<Value, ForwardError>(
            ForwardError::DecodeFailed,
        ),
        status == 200 && json_parses(body@) ==> r is Ok,
    {
    if status != 200 {
        return Err(ForwardError::RequestFailed(status));
    }
    match parse_json_value(body) {
        Some(v) => Ok(v),
        None => Err(ForwardError::DecodeFailed),
    }
}


/// The request one "search" call issues.
pub fn search(chain_id: i32, params: &SearchParams) -> (r: RequestSpec)
    ensures
        r.chain_id == chain_id,
        r.path@ == "search"@,
        pairs_view(r.query) == params.spec_query(),
{
    RequestSpec { chain_id, path: String::from_str("search"), query: params.query_pairs() }
}

/// The request one "list the latest transactions" call issues.
pub fn get_transactions(chain_id: i32, params: &GetTransactionsParams) -> (r: RequestSpec)
    ensures
        r.chain_id == chain_id,
        r.path@ == "transactions"@,
        pairs_view(r.query) == params.spec_query(),
{
    RequestSpec { chain_id, path: String::from_str("transactions"), query: params.query_pairs() }
}

/// The request one "list the latest blocks" call issues.
pub fn get_blocks(chain_id: i32, params: &GetBlocksParams) -> (r: RequestSpec)
    ensures
        r.chain_id == chain_id,
        r.path@ == "blocks"@,
        pairs_view(r.query) == params.spec_query(),
{
    RequestSpec { chain_id, path: String::from_str("blocks"), query: params.query_pairs() }
}

/// The request one "list tokens" call issues.
pub fn get_tokens(chain_id: i32, params: &GetTokensParams) -> (r: RequestSpec)
    ensures
        r.chain_id == chain_id,
        r.path@ == "tokens"@,
        pairs_view(r.query) == params.spec_query(),
{
    RequestSpec { chain_id, path: String::from_str("tokens"), query: params.query_pairs() }
}

/// The request one "list the latest token transfers" call issues.
pub fn get_transfers(chain_id: i32) -> (r: RequestSpec)
    ensures
        r.chain_id == chain_id,
        r.path@ == "token-transfers"@,
        pairs_view(r.query) == Seq::<PairModel>::empty(),
{
    let r = RequestSpec { chain_id, path: String::from_str("token-transfers"), query: Vec::new() };
    proof {
        assert(pairs_view(r.query) =~= Seq::<PairModel>::empty());
    }
    r
}

/// The request one "list the latest internal transactions" call issues.
pub fn get_internal_transactions(chain_id: i32) -> (r: RequestSpec)
    ensures
        r.chain_id == chain_id,
        r.path@ == "internal-transactions"@,
        pairs_view(r.query) == Seq::<PairModel>::empty(),
{
    let r = RequestSpec { chain_id, path: String::from_str("internal-transactions"), query: Vec::new() };
    proof {
        assert(pairs_view(r.query) =~= Seq::<PairModel>::empty());
    }
    r
}

/// The request one "list the latest withdrawals" call issues.
pub fn get_withdrawals(chain_id: i32) -> (r: RequestSpec)
    ensures
        r.chain_id == chain_id,
        r.path@ == "withdrawals"@,
        pairs_view(r.query) == Seq::<PairModel>::empty(),
{
    let r = RequestSpec { chain_id, path: String::from_str("withdrawals"), query: Vec::new() };
    proof {
        assert(pairs_view(r.query) =~= Seq::<PairModel>::empty());
    }
    r
}

/// The request one "get chain stats" call issues.
pub fn get_stats(chain_id: i32) -> (r: RequestSpec)
    ensures
        r.chain_id == chain_id,
        r.path@ == "stats"@,
        pairs_view(r.query) == Seq::<PairModel>::empty(),
{
    let r = RequestSpec { chain_id, path: String::from_str("stats"), query: Vec::new() };
    proof {
        assert(pairs_view(r.query) =~= Seq::<PairModel>::empty());
    }
    r
}

/// The request one "list top native coin holders" call issues.
pub fn get_addresses(chain_id: i32) -> (r: RequestSpec)
    ensures
        r.chain_id == chain_id,
        r.path@ == "addresses"@,
        pairs_view(r.query) == Seq::<PairModel>::empty(),
{
    let r = RequestSpec { chain_id, path: String::from_str("addresses"), query: Vec::new() };
    proof {
        assert(pairs_view(r.query) =~= Seq::<PairModel>::empty());
    }
    r
}

/// The request one "get transaction info" call issues.
pub fn get_transaction_info(chain_id: i32, hash: &str) -> (r: RequestSpec)
    ensures
        r.chain_id == chain_id,
        r.path@ == "transactions/"@ + hash@,
        pairs_view(r.query) == Seq::<PairModel>::empty(),
{
    let mut path = String::from_str("transactions/");
    path.append(hash);
    let r = RequestSpec { chain_id, path, query: Vec::new() };
    proof {
        assert(pairs_view(r.query) =~= Seq::<PairModel>::empty());
    }
    r
}

/// The request one "list a transaction's internal transactions" call issues.
pub fn get_transaction_internal_transactions(chain_id: i32, hash: &str) -> (r: RequestSpec)
    ensures
        r.chain_id == chain_id,
        r.path@ == "transactions/"@ + hash@ + "/internal-transactions"@,
        pairs_view(r.query) == Seq::<PairModel>::empty(),
{
    let mut path = String::from_str("transactions/");
    path.append(hash);
    path.append("/internal-transactions");
    let r = RequestSpec { chain_id, path, query: Vec::new() };
    proof {
        assert(pairs_view(r.query) =~= Seq::<PairModel>::empty());
    }
    r
}

/// The request one "list a transaction's logs" call issues.
pub fn get_transaction_logs(chain_id: i32, hash: &str) -> (r: RequestSpec)
    ensures
        r.chain_id == chain_id,
        r.path@ == "transactions/"@ + hash@ + "/logs"@,
        pairs_view(r.query) == Seq::<PairModel>::empty(),
{
    let mut path = String::from_str("transactions/");
    path.append(hash);
    path.append("/logs");
    let r = RequestSpec { chain_id, path, query: Vec::new() };
    proof {
        assert(pairs_view(r.query) =~= Seq::<PairModel>::empty());
    }
    r
}

/// The request one "get a transaction summary" call issues.
pub fn get_transaction_summary(chain_id: i32, hash: &str) -> (r: RequestSpec)
    ensures
        r.chain_id == chain_id,
        r.path@ == "transactions/"@ + hash@ + "/summary"@,
        pairs_view(r.query) == Seq::<PairModel>::empty(),
{
    let mut path = String::from_str("transactions/");
    path.append(hash);
    path.append("/summary");
    let r = RequestSpec { chain_id, path, query: Vec::new() };
    proof {
        assert(pairs_view(r.query) =~= Seq::<PairModel>::empty());
    }
    r
}

/// The request one "get block info" call issues.
pub fn get_block_info(chain_id: i32, number_or_hash: &str) -> (r: RequestSpec)
    ensures
        r.chain_id == chain_id,
        r.path@ == "blocks/"@ + number_or_hash@,
        pairs_view(r.query) == Seq::<PairModel>::empty(),
{
    let mut path = String::from_str("blocks/");
    path.append(number_or_hash);
    let r = RequestSpec { chain_id, path, query: Vec::new() };
    proof {
        assert(pairs_view(r.query) =~= Seq::<PairModel>::empty());
    }
    r
}

/// The request one "list a block's transactions" call issues.
pub fn get_block_transactions(chain_id: i32, number_or_hash: &str) -> (r: RequestSpec)
    ensures
        r.chain_id == chain_id,
        r.path@ == "blocks/"@ + number_or_hash@ + "/transactions"@,
        pairs_view(r.query) == Seq::<PairModel>::empty(),
{
    let mut path = String::from_str("blocks/");
    path.append(number_or_hash);
    path.append("/transactions");
    let r = RequestSpec { chain_id, path, query: Vec::new() };
    proof {
        assert(pairs_view(r.query) =~= Seq::<PairModel>::empty());
    }
    r
}

/// The request one "list a block's withdrawals" call issues.
pub fn get_block_withdrawals(chain_id: i32, number_or_hash: &str) -> (r: RequestSpec)
    ensures
        r.chain_id == chain_id,
        r.path@ == "blocks/"@ + number_or_hash@ + "/withdrawals"@,
        pairs_view(r.query) == Seq::<PairModel>::empty(),
{
    let mut path = String::from_str("blocks/");
    path.append(number_or_hash);
    path.append("/withdrawals");
    let r = RequestSpec { chain_id, path, query: Vec::new() };
    proof {
        assert(pairs_view(r.query) =~= Seq::<PairModel>::empty());
    }
    r
}

/// The request one "get address info" call issues.
pub fn get_address_info(chain_id: i32, hash: &str) -> (r: RequestSpec)
    ensures
        r.chain_id == chain_id,
        r.path@ == "addresses/"@ + hash@,
        pairs_view(r.query) == Seq::<PairModel>::empty(),
{
    let mut path = String::from_str("addresses/");
    path.append(hash);
    let r = RequestSpec { chain_id, path, query: Vec::new() };
    proof {
        assert(pairs_view(r.query) =~= Seq::<PairModel>::empty());
    }
    r
}

/// The request one "get address counters" call issues.
pub fn get_address_counters(chain_id: i32, hash: &str) -> (r: RequestSpec)
    ensures
        r.chain_id == chain_id,
        r.path@ == "addresses/"@ + hash@ + "/counters"@,
        pairs_view(r.query) == Seq::<PairModel>::empty(),
{
    let mut path = String::from_str("addresses/");
    path.append(hash);
    path.append("/counters");
    let r = RequestSpec { chain_id, path, query: Vec::new() };
    proof {
        assert(pairs_view(r.query) =~= Seq::<PairModel>::empty());
    }
    r
}

/// The request one "list an address's logs" call issues.
pub fn get_address_logs(chain_id: i32, hash: &str) -> (r: RequestSpec)
    ensures
        r.chain_id == chain_id,
        r.path@ == "addresses/"@ + hash@ + "/logs"@,
        pairs_view(r.query) == Seq::<PairModel>::empty(),
{
    let mut path = String::from_str("addresses/");
    path.append(hash);
    path.append("/logs");
    let r = RequestSpec { chain_id, path, query: Vec::new() };
    proof {
        assert(pairs_view(r.query) =~= Seq::<PairModel>::empty());
    }
    r
}

/// The request one "get an address's coin balance history" call issues.
pub fn get_address_coin_balance_history(chain_id: i32, hash: &str) -> (r: RequestSpec)
    ensures
        r.chain_id == chain_id,
        r.path@ == "addresses/"@ + hash@ + "/coin-balance-history"@,
        pairs_view(r.query) == Seq::<PairModel>::empty(),
{
    let mut path = String::from_str("addresses/");
    path.append(hash);
    path.append("/coin-balance-history");
    let r = RequestSpec { chain_id, path, query: Vec::new() };
    proof {
        assert(pairs_view(r.query) =~= Seq::<PairModel>::empty());
    }
    r
}

/// The request one "get an address's coin balance history by day" call issues.
pub fn get_address_coin_balance_history_by_day(chain_id: i32, hash: &str) -> (r: RequestSpec)
    ensures
        r.chain_id == chain_id,
        r.path@ == "addresses/"@ + hash@ + "/coin-balance-history-by-day"@,
        pairs_view(r.query) == Seq::<PairModel>::empty(),
{
    let mut path = String::from_str("addresses/");
    path.append(hash);
    path.append("/coin-balance-history-by-day");
    let r = RequestSpec { chain_id, path, query: Vec::new() };
    proof {
        assert(pairs_view(r.query) =~= Seq::<PairModel>::empty());
    }
    r
}

/// The request one "list an address's withdrawals" call issues.
pub fn get_address_withdrawals(chain_id: i32, hash: &str) -> (r: RequestSpec)
    ensures
        r.chain_id == chain_id,
        r.path@ == "addresses/"@ + hash@ + "/withdrawals"@,
        pairs_view(r.query) == Seq::<PairModel>::empty(),
{
    let mut path = String::from_str("addresses/");
    path.append(hash);
    path.append("/withdrawals");
    let r = RequestSpec { chain_id, path, query: Vec::new() };
    proof {
        assert(pairs_view(r.query) =~= Seq::<PairModel>::empty());
    }
    r
}

/// The request one "get token info" call issues.
pub fn get_token_info(chain_id: i32, hash: &str) -> (r: RequestSpec)
    ensures
        r.chain_id == chain_id,
        r.path@ == "tokens/"@ + hash@,
        pairs_view(r.query) == Seq::<PairModel>::empty(),
{
    let mut path = String::from_str("tokens/");
    path.append(hash);
    let r = RequestSpec { chain_id, path, query: Vec::new() };
    proof {
        assert(pairs_view(r.query) =~= Seq::<PairModel>::empty());
    }
    r
}

/// The request one "list a token's transfers" call issues.
pub fn get_token_transfers(chain_id: i32, hash: &str) -> (r: RequestSpec)
    ensures
        r.chain_id == chain_id,
        r.path@ == "tokens/"@ + hash@ + "/transfers"@,
        pairs_view(r.query) == Seq::<PairModel>::empty(),
{
    let mut path = String::from_str("tokens/");
    path.append(hash);
    path.append("/transfers");
    let r = RequestSpec { chain_id, path, query: Vec::new() };
    proof {
        assert(pairs_view(r.query) =~= Seq::<PairModel>::empty());
    }
    r
}

/// The request one "list a token's holders" call issues.
pub fn get_token_holders(chain_id: i32, hash: &str) -> (r: RequestSpec)
    ensures
        r.chain_id == chain_id,
        r.path@ == "tokens/"@ + hash@ + "/holders"@,
        pairs_view(r.query) == Seq::<PairModel>::empty(),
{
    let mut path = String::from_str("tokens/");
    path.append(hash);
    path.append("/holders");
    let r = RequestSpec { chain_id, path, query: Vec::new() };
    proof {
        assert(pairs_view(r.query) =~= Seq::<PairModel>::empty());
    }
    r
}

/// The request one "get token counters" call issues.
pub fn get_token_counters(chain_id: i32, hash: &str) -> (r: RequestSpec)
    ensures
        r.chain_id == chain_id,
        r.path@ == "tokens/"@ + hash@ + "/counters"@,
        pairs_view(r.query) == Seq::<PairModel>::empty(),
{
    let mut path = String::from_str("tokens/");
    path.append(hash);
    path.append("/counters");
    let r = RequestSpec { chain_id, path, query: Vec::new() };
    proof {
        assert(pairs_view(r.query) =~= Seq::<PairModel>::empty());
    }
    r
}

/// The request one "list a token's instances" call issues.
pub fn get_token_instances(chain_id: i32, hash: &str) -> (r: RequestSpec)
    ensures
        r.chain_id == chain_id,
        r.path@ == "tokens/"@ + hash@ + "/instances"@,
        pairs_view(r.query) == Seq::<PairModel>::empty(),
{
    let mut path = String::from_str("tokens/");
    path.append(hash);
    path.append("/instances");
    let r = RequestSpec { chain_id, path, query: Vec::new() };
    proof {
        assert(pairs_view(r.query) =~= Seq::<PairModel>::empty());
    }
    r
}

/// The request one "list a transaction's token transfers" call issues.
pub fn get_transaction_token_transfers(chain_id: i32, hash: &str, params: &GetTransactionTokenTransfersParams) -> (r: RequestSpec)
    ensures
        r.chain_id == chain_id,
        r.path@ == "transactions/"@ + hash@ + "/token-transfers"@,
        pairs_view(r.query) == params.spec_query(),
{
    let mut path = String::from_str("transactions/");
    path.append(hash);
    path.append("/token-transfers");
    RequestSpec { chain_id, path, query: params.query_pairs() }
}

/// The request one "list an address's transactions" call issues.
pub fn get_address_transactions(chain_id: i32, hash: &str, params: &GetAddressTransactionsParams) -> (r: RequestSpec)
    ensures
        r.chain_id == chain_id,
        r.path@ == "addresses/"@ + hash@ + "/transactions"@,
        pairs_view(r.query) == params.spec_query(),
{
    let mut path = String::from_str("addresses/");
    path.append(hash);
    path.append("/transactions");
    RequestSpec { chain_id, path, query: params.query_pairs() }
}

/// The request one "list an address's token transfers" call issues.
pub fn get_address_token_transfers(chain_id: i32, hash: &str, params: &GetAddressTokenTransfersParams) -> (r: RequestSpec)
    ensures
        r.chain_id == chain_id,
        r.path@ == "addresses/"@ + hash@ + "/token-transfers"@,
        pairs_view(r.query) == params.spec_query(),
{
    let mut path = String::from_str("addresses/");
    path.append(hash);
    path.append("/token-transfers");
    RequestSpec { chain_id, path, query: params.query_pairs() }
}

/// The request one "list an address's internal transactions" call issues.
pub fn get_address_internal_transactions(chain_id: i32, hash: &str, params: &GetAddressInternalTransactionsParams) -> (r: RequestSpec)
    ensures
        r.chain_id == chain_id,
        r.path@ == "addresses/"@ + hash@ + "/internal-transactions"@,
        pairs_view(r.query) == params.spec_query(),
{
    let mut path = String::from_str("addresses/");
    path.append(hash);
    path.append("/internal-transactions");
    RequestSpec { chain_id, path, query: params.query_pairs() }
}

/// The request one "list an address's tokens" call issues.
pub fn get_address_tokens(chain_id: i32, hash: &str, params: &GetAddressTokensParams) -> (r: RequestSpec)
    ensures
        r.chain_id == chain_id,
        r.path@ == "addresses/"@ + hash@ + "/tokens"@,
        pairs_view(r.query) == params.spec_query(),
{
    let mut path = String::from_str("addresses/");
    path.append(hash);
    path.append("/tokens");
    RequestSpec { chain_id, path, query: params.query_pairs() }
}

/// The request one "list an address's NFTs" call issues.
pub fn get_address_nfts(chain_id: i32, hash: &str, params: &GetAddressNftsParams) -> (r: RequestSpec)
    ensures
        r.chain_id == chain_id,
        r.path@ == "addresses/"@ + hash@ + "/nft"@,
        pairs_view(r.query) == params.spec_query(),
{
    let mut path = String::from_str("addresses/");
    path.append(hash);
    path.append("/nft");
    RequestSpec { chain_id, path, query: params.query_pairs() }
}

/// The request one "list an address's NFT collections" call issues.
pub fn get_address_nft_collections(chain_id: i32, hash: &str, params: &GetAddressNftsParams) -> (r: RequestSpec)
    ensures
        r.chain_id == chain_id,
        r.path@ == "addresses/"@ + hash@ + "/nft/collections"@,
        pairs_view(r.query) == params.spec_query(),
{
    let mut path = String::from_str("addresses/");
    path.append(hash);
    path.append("/nft/collections");
    RequestSpec { chain_id, path, query: params.query_pairs() }
}

/// The request one "get NFT instance info" call issues.
pub fn get_token_instance_info(chain_id: i32, hash: &str, id: u64) -> (r: RequestSpec)
    ensures
        r.chain_id == chain_id,
        r.path@ == "tokens/"@ + hash@ + "/instances/"@ + dec_digits(id as int),
        pairs_view(r.query) == Seq::<PairModel>::empty(),
{
    let mut path = String::from_str("tokens/");
    path.append(hash);
    path.append("/instances/");
    let digits = u64_to_string(id);
    path.append(digits.as_str());
    let r = RequestSpec { chain_id, path, query: Vec::new() };
    proof {
        assert(pairs_view(r.query) =~= Seq::<PairModel>::empty());
    }
    r
}

/// The request one "list an NFT instance's transfers" call issues.
pub fn get_token_instance_transfers(chain_id: i32, hash: &str, id: u64) -> (r: RequestSpec)
    ensures
        r.chain_id == chain_id,
        r.path@ == "tokens/"@ + hash@ + "/instances/"@ + dec_digits(id as int) + "/transfers"@,
        pairs_view(r.query) == Seq::<PairModel>::empty(),
{
    let mut path = String::from_str("tokens/");
    path.append(hash);
    path.append("/instances/");
    let digits = u64_to_string(id);
    path.append(digits.as_str());
    path.append("/transfers");
    let r = RequestSpec { chain_id, path, query: Vec::new() };
    proof {
        assert(pairs_view(r.query) =~= Seq::<PairModel>::empty());
    }
    r
}

/// The request one "list an NFT instance's holders" call issues.
pub fn get_token_instance_holders(chain_id: i32, hash: &str, id: u64) -> (r: RequestSpec)
    ensures
        r.chain_id == chain_id,
        r.path@ == "tokens/"@ + hash@ + "/instances/"@ + dec_digits(id as int) + "/holders"@,
        pairs_view(r.query) == Seq::<PairModel>::empty(),
{
    let mut path = String::from_str("tokens/");
    path.append(hash);
    path.append("/instances/");
    let digits = u64_to_string(id);
    path.append(digits.as_str());
    path.append("/holders");
    let r = RequestSpec { chain_id, path, query: Vec::new() };
    proof {
        assert(pairs_view(r.query) =~= Seq::<PairModel>::empty());
    }
    r
}

/// The request one "get an NFT instance's transfers count" call issues.
pub fn get_token_instance_transfers_count(chain_id: i32, hash: &str, id: u64) -> (r: RequestSpec)
    ensures
        r.chain_id == chain_id,
        r.path@ == "tokens/"@ + hash@ + "/instances/"@ + dec_digits(id as int) + "/transfers-count"@,
        pairs_view(r.query) == Seq::<PairModel>::empty(),
{
    let mut path = String::from_str("tokens/");
    path.append(hash);
    path.append("/instances/");
    let digits = u64_to_string(id);
    path.append(digits.as_str());
    path.append("/transfers-count");
    let r = RequestSpec { chain_id, path, query: Vec::new() };
    proof {
        assert(pairs_view(r.query) =~= Seq::<PairModel>::empty());
    }
    r
}

} // verus!
