use vstd::prelude::*;
use std::collections::HashMap;
use crate::ResolveError;
use crate::chain::Chain;
use crate::chain::ChainModel;
use crate::decimal::dec_signed;
use crate::decimal::i32_to_string;

verus! {

broadcast use vstd::std_specs::hash::group_hash_axioms;

/// The chain id whose explorer URL is permanently overridden: resolution
/// for it consults neither the cache nor the registry.
pub const OVERRIDE_CHAIN_ID: i32 = 4200;

/// The fixed explorer base URL of the override chain.
pub open spec fn override_url() -> Seq<char> {
    "https://scan.merlinverify.com/"@
}

/// The registry endpoint prefix; the chain id follows as a path parameter.
pub open spec fn registry_prefix() -> Seq<char> {
    "https://chains.blockscout.com/api/chains/"@
}

/// The URL of the registry record for one chain id.
pub fn registry_chain_url(chain_id: i32) -> (r: String)
    ensures
        r@ == registry_prefix() + dec_signed(chain_id as int),
{
    let mut r = String::from_str("https://chains.blockscout.com/api/chains/");
    let digits = i32_to_string(chain_id);
    r.append(digits.as_str());
    r
}

/// What one step of resolution decided, before any network work: either a
/// final answer, or the instruction to fetch the chain's registry record.
pub enum LookupOutcome {
    Resolved(String),
    Failed(ResolveError),
    FetchNeeded,
}

/// Mathematical model of a [`LookupOutcome`].
pub enum LookupModel {
    Resolved(Seq<char>),
    Failed(ResolveError),
    FetchNeeded,
}

impl View for LookupOutcome {
    type V = LookupModel;

    open spec fn view(&self) -> LookupModel {
        match self {
            LookupOutcome::Resolved(u) => LookupModel::Resolved(u@),
            LookupOutcome::Failed(e) => LookupModel::Failed(*e),
            LookupOutcome::FetchNeeded => LookupModel::FetchNeeded,
        }
    }
}

/// What came back from fetching a chain's registry record: the registry
/// was unreachable, or it answered with an HTTP status and, on success,
/// possibly a decoded record.
pub enum RegistryFetch {
    Unreachable,
    Response { status: u16, record: Option<Chain> },
}

/// Mathematical model of a [`RegistryFetch`].
pub enum FetchModel {
    Unreachable,
    Response { status: u16, record: Option<ChainModel> },
}

impl View for RegistryFetch {
    type V = FetchModel;

    open spec fn view(&self) -> FetchModel {
        match self {
            RegistryFetch::Unreachable => FetchModel::Unreachable,
            RegistryFetch::Response { status, record } => FetchModel::Response {
                status: *status,
                record: match record {
                    Some(c) => Some(c@),
                    None => None,
                },
            },
        }
    }
}

/// The model of a chain-record result: the `Ok` record is abstracted to
/// its model, errors are kept as they are.
pub open spec fn chain_result_view(r: Result<Chain, ResolveError>) -> Result<
    ChainModel,
    ResolveError,
> {
    match r {
        Ok(c) => Ok(c@),
        Err(e) => Err(e),
    }
}

/// What `lookup_explorer_url` decides on a given cache state: the override
/// id resolves to the fixed URL, a cached id to its record's first
/// explorer, and any other id asks for a registry fetch.
pub open spec fn spec_lookup(cache: Map<i32, ChainModel>, chain_id: i32) -> LookupModel {
    if chain_id == OVERRIDE_CHAIN_ID {
        LookupModel::Resolved(override_url())
    } else if cache.contains_key(chain_id) {
        match cache[chain_id].primary_url() {
            Ok(u) => LookupModel::Resolved(u),
            Err(e) => LookupModel::Failed(e),
        }
    } else {
        LookupModel::FetchNeeded
    }
}

/// What `admit_fetch` does to the cache and returns, for every possible
/// fetch outcome: a failed or non-success fetch leaves the cache unchanged
/// and fails with `LookupFailed`; a decoded record is inserted — whether or
/// not it has explorers — and returned.
pub open spec fn spec_admit(
    cache: Map<i32, ChainModel>,
    chain_id: i32,
    fetch: FetchModel,
) -> (Map<i32, ChainModel>, Result<ChainModel, ResolveError>) {
    match fetch {
        FetchModel::Unreachable => (cache, Err(ResolveError::LookupFailed)),
        FetchModel::Response { status, record } => {
            if status != 200 {
                (cache, Err(ResolveError::LookupFailed))
            } else {
                match record {
                    None => (cache, Err(ResolveError::LookupFailed)),
                    Some(c) => (cache.insert(chain_id, c), Ok(c)),
                }
            }
        },
    }
}

/// The chain-resolution cache: chain id to registry record, populated on
/// first use and never evicted.
pub struct API {
    pub cached_chains: HashMap<i32, Chain>,
}

impl API {
    /// Mathematical model of the cache contents.
    pub open spec fn cache(&self) -> Map<i32, ChainModel> {
        self.cached_chains@.map_values(|c: Chain| c@)
    }

    pub fn new() -> (r: API)
        ensures
            r.cache() == Map::<i32, ChainModel>::empty(),
    {
        let r = API { cached_chains: HashMap::new() };
        proof {
            assert(r.cache() =~= Map::<i32, ChainModel>::empty());
        }
        r
    }

    /// The chain record cached for this id, if any.
    pub fn get_cached_chain(&self, chain_id: i32) -> (r: Option<&Chain>)
        ensures
            match r {
                Some(c) => self.cache().contains_key(chain_id) && c@ == self.cache()[chain_id],
                None => !self.cache().contains_key(chain_id),
            },
    {
        self.cached_chains.get(&chain_id)
    }

    /// One resolution step on the current cache state. It performs no
    /// network work itself: when the id is neither overridden nor cached it
    /// answers `FetchNeeded`, and the caller fetches the registry record
    /// and hands the outcome to `admit_fetch`.
    pub fn lookup_explorer_url(&self, chain_id: i32) -> (r: LookupOutcome)
        ensures
            r@ == spec_lookup(self.cache(), chain_id),
    {
        if chain_id == OVERRIDE_CHAIN_ID {
            return LookupOutcome::Resolved(String::from_str("https://scan.merlinverify.com/"));
        }
        match self.cached_chains.get(&chain_id) {
            Some(chain) => match chain.get_url() {
                Ok(u) => LookupOutcome::Resolved(u),
                Err(e) => LookupOutcome::Failed(e),
            },
            None => LookupOutcome::FetchNeeded,
        }
    }

    /// Takes in what a registry fetch for `chain_id` produced. A decoded
    /// record is cached — even one with an empty explorer list — and
    /// returned; every other outcome fails with `LookupFailed` and leaves
    /// the cache exactly as it was.
    pub fn admit_fetch(&mut self, chain_id: i32, fetch: RegistryFetch) -> (r: Result<
        Chain,
        ResolveError,
    >)
        ensures
            final(self).cache() == spec_admit(old(self).cache(), chain_id, fetch@).0,
            chain_result_view(r) == spec_admit(old(self).cache(), chain_id, fetch@).1,
    {
        match fetch {
            RegistryFetch::Unreachable => Err(ResolveError::LookupFailed),
            RegistryFetch::Response { status, record } => {
                if status != 200 {
                    return Err(ResolveError::LookupFailed);
                }
                match record {
                    None => Err(ResolveError::LookupFailed),
                    Some(chain) => {
                        let stored = chain.clone();
                        self.cached_chains.insert(chain_id, stored);
                        proof {
                            assert(final(self).cache() =~= old(self).cache().insert(chain_id, chain@));
                        }
                        Ok(chain)
                    },
                }
            },
        }
    }
}

/// Law: resolution of the override chain id always yields the fixed URL
/// and never asks for a registry fetch, whatever the cache holds.
pub proof fn lemma_override_needs_no_fetch(cache: Map<i32, ChainModel>)
    ensures
        spec_lookup(cache, OVERRIDE_CHAIN_ID) == LookupModel::Resolved(override_url()),
{
}

/// Law: once a fetch for a chain id has been admitted successfully, a
/// later resolution of the same id is answered from the cache — it never
/// asks for a second fetch, and it answers exactly what the admitted
/// record's first explorer gives.
pub proof fn lemma_admitted_id_needs_no_fetch(
    cache: Map<i32, ChainModel>,
    chain_id: i32,
    fetch: FetchModel,
)
    requires
        spec_admit(cache, chain_id, fetch).1 is Ok,
    ensures
        spec_lookup(spec_admit(cache, chain_id, fetch).0, chain_id) != LookupModel::FetchNeeded,
        chain_id != OVERRIDE_CHAIN_ID ==> spec_lookup(spec_admit(cache, chain_id, fetch).0, chain_id)
            == ({
            let c = spec_admit(cache, chain_id, fetch).1->Ok_0;
            match c.primary_url() {
                Ok(u) => LookupModel::Resolved(u),
                Err(e) => LookupModel::Failed(e),
            }
        }),
{
}

/// Law: a decoded record with an empty explorer list is still cached, the
/// admitting call's caller finds no explorer on it, and every later
/// resolution of the id fails with `NoExplorerAvailable` without a fetch.
pub proof fn lemma_empty_record_cached(cache: Map<i32, ChainModel>, chain_id: i32, c: ChainModel)
    requires
        chain_id != OVERRIDE_CHAIN_ID,
        c.explorers.len() == 0,
    ensures
        ({
            let admitted = spec_admit(
                cache,
                chain_id,
                FetchModel::Response { status: 200, record: Some(c) },
            );
            &&& admitted.1 == Ok::<ChainModel, ResolveError>(c)
            &&& admitted.0.contains_key(chain_id)
            &&& admitted.0[chain_id] == c
            &&& c.primary_url() == Err::<Seq<char>, ResolveError>(ResolveError::NoExplorerAvailable)
            &&& spec_lookup(admitted.0, chain_id) == LookupModel::Failed(
                ResolveError::NoExplorerAvailable,
            )
        }),
{
}

/// Law: a fetch that did not produce a decoded record — the registry was
/// unreachable, answered non-success, or its body did not decode — fails
/// with `LookupFailed` and leaves the cache exactly as it was.
pub proof fn lemma_failed_fetch_leaves_cache(
    cache: Map<i32, ChainModel>,
    chain_id: i32,
    fetch: FetchModel,
)
    requires
        !(spec_admit(cache, chain_id, fetch).1 is Ok),
    ensures
        spec_admit(cache, chain_id, fetch).0 == cache,
        spec_admit(cache, chain_id, fetch).1 == Err::<ChainModel, ResolveError>(
            ResolveError::LookupFailed,
        ),
{
}

/// Law: admitting records for two different chain ids populates two
/// independent cache entries; neither admission disturbs the other's.
pub proof fn lemma_distinct_ids_independent(
    cache: Map<i32, ChainModel>,
    first_id: i32,
    second_id: i32,
    first: ChainModel,
    second: ChainModel,
)
    requires
        first_id != second_id,
    ensures
        ({
            let once = spec_admit(
                cache,
                first_id,
                FetchModel::Response { status: 200, record: Some(first) },
            ).0;
            let twice = spec_admit(
                once,
                second_id,
                FetchModel::Response { status: 200, record: Some(second) },
            ).0;
            &&& twice.contains_key(first_id)
            &&& twice[first_id] == first
            &&& twice.contains_key(second_id)
            &&& twice[second_id] == second
        }),
{
}

} // verus!
