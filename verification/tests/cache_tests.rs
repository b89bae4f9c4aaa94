use block_scout::cache::{LookupOutcome, RegistryFetch, API};
use block_scout::chain::{Chain, ChainExplorer};
use block_scout::ResolveError;

fn record(urls: &[&str]) -> Chain {
    Chain {
        name: "Some Chain".to_string(),
        description: "a chain".to_string(),
        is_test_net: false,
        explorers: urls
            .iter()
            .map(|u| ChainExplorer { url: u.to_string() })
            .collect(),
    }
}

#[test]
fn override_id_always_resolves_fixed_url() {
    let api = API::new();
    match api.lookup_explorer_url(4200) {
        LookupOutcome::Resolved(url) => {
            assert_eq!(url, "https://scan.merlinverify.com/");
        }
        _ => panic!("override id must resolve without a fetch"),
    }
}

#[test]
fn override_id_resolves_even_with_unrelated_cache_entries() {
    let mut api = API::new();
    let fetch = RegistryFetch::Response {
        status: 200,
        record: Some(record(&["https://eth.blockscout.com/"])),
    };
    api.admit_fetch(1, fetch).unwrap();
    match api.lookup_explorer_url(4200) {
        LookupOutcome::Resolved(url) => {
            assert_eq!(url, "https://scan.merlinverify.com/");
        }
        _ => panic!("override id must resolve without a fetch"),
    }
}

#[test]
fn uncached_id_asks_for_fetch() {
    let api = API::new();
    assert!(matches!(
        api.lookup_explorer_url(1),
        LookupOutcome::FetchNeeded
    ));
}

#[test]
fn second_lookup_is_served_from_cache() {
    let mut api = API::new();
    assert!(matches!(
        api.lookup_explorer_url(1),
        LookupOutcome::FetchNeeded
    ));
    let fetch = RegistryFetch::Response {
        status: 200,
        record: Some(record(&["https://eth.blockscout.com/"])),
    };
    let chain = api.admit_fetch(1, fetch).unwrap();
    assert_eq!(
        chain.get_url().unwrap(),
        "https://eth.blockscout.com/".to_string()
    );
    match api.lookup_explorer_url(1) {
        LookupOutcome::Resolved(url) => {
            assert_eq!(url, "https://eth.blockscout.com/");
        }
        _ => panic!("a cached id must resolve without another fetch"),
    }
}

#[test]
fn first_explorer_wins() {
    let mut api = API::new();
    let fetch = RegistryFetch::Response {
        status: 200,
        record: Some(record(&[
            "https://first.example/",
            "https://second.example/",
        ])),
    };
    api.admit_fetch(10, fetch).unwrap();
    match api.lookup_explorer_url(10) {
        LookupOutcome::Resolved(url) => assert_eq!(url, "https://first.example/"),
        _ => panic!("expected a resolved url"),
    }
}

#[test]
fn bad_status_fails_and_leaves_cache_unchanged() {
    let mut api = API::new();
    let fetch = RegistryFetch::Response {
        status: 500,
        record: None,
    };
    let err = api.admit_fetch(1, fetch).unwrap_err();
    assert_eq!(err, ResolveError::LookupFailed);
    assert!(matches!(
        api.lookup_explorer_url(1),
        LookupOutcome::FetchNeeded
    ));
}

#[test]
fn unreachable_registry_fails_and_leaves_cache_unchanged() {
    let mut api = API::new();
    let err = api.admit_fetch(1, RegistryFetch::Unreachable).unwrap_err();
    assert_eq!(err, ResolveError::LookupFailed);
    assert!(matches!(
        api.lookup_explorer_url(1),
        LookupOutcome::FetchNeeded
    ));
}

#[test]
fn undecodable_record_fails_and_leaves_cache_unchanged() {
    let mut api = API::new();
    let fetch = RegistryFetch::Response {
        status: 200,
        record: None,
    };
    let err = api.admit_fetch(1, fetch).unwrap_err();
    assert_eq!(err, ResolveError::LookupFailed);
    assert!(matches!(
        api.lookup_explorer_url(1),
        LookupOutcome::FetchNeeded
    ));
}

#[test]
fn empty_explorer_record_is_cached_and_keeps_failing() {
    let mut api = API::new();
    let fetch = RegistryFetch::Response {
        status: 200,
        record: Some(record(&[])),
    };
    let chain = api.admit_fetch(7, fetch).unwrap();
    assert_eq!(chain.get_url().unwrap_err(), ResolveError::NoExplorerAvailable);
    // The record is cached: later lookups fail the same way, with no fetch.
    match api.lookup_explorer_url(7) {
        LookupOutcome::Failed(e) => assert_eq!(e, ResolveError::NoExplorerAvailable),
        _ => panic!("an empty cached record must fail without another fetch"),
    }
    assert!(api.get_cached_chain(7).is_some());
}

#[test]
fn distinct_ids_populate_independent_entries() {
    let mut api = API::new();
    let first = RegistryFetch::Response {
        status: 200,
        record: Some(record(&["https://one.example/"])),
    };
    let second = RegistryFetch::Response {
        status: 200,
        record: Some(record(&["https://two.example/"])),
    };
    api.admit_fetch(5, first).unwrap();
    api.admit_fetch(6, second).unwrap();
    match api.lookup_explorer_url(5) {
        LookupOutcome::Resolved(url) => assert_eq!(url, "https://one.example/"),
        _ => panic!("expected a resolved url"),
    }
    match api.lookup_explorer_url(6) {
        LookupOutcome::Resolved(url) => assert_eq!(url, "https://two.example/"),
        _ => panic!("expected a resolved url"),
    }
}

#[test]
fn registry_url_carries_the_chain_id() {
    assert_eq!(
        block_scout::cache::registry_chain_url(1),
        "https://chains.blockscout.com/api/chains/1"
    );
    assert_eq!(
        block_scout::cache::registry_chain_url(4200),
        "https://chains.blockscout.com/api/chains/4200"
    );
    assert_eq!(
        block_scout::cache::registry_chain_url(-17),
        "https://chains.blockscout.com/api/chains/-17"
    );
}

#[test]
fn resolve_error_messages() {
    assert_eq!(ResolveError::LookupFailed.message(), "chain lookup failed");
    assert_eq!(ResolveError::NoExplorerAvailable.message(), "no explorers");
}
