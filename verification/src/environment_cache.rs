//! A cache of what is known of each fork source: its chain id, the block
//! that "latest" is pinned to, and the environment of single blocks.
//!
//! The cache never calls the provider. A query returns what the cache holds
//! or names what must be fetched; a second call takes what was fetched.

use vstd::prelude::*;
use dashmap::DashMap;
use quick_cache::sync::Cache;
use crate::primitives::{Address, B256, U256, ChainId, BlockNumber};
use crate::error::Error;

verus! {

/// Number of block environments that an `EnvironmentCache` is made for.
pub const BLOCK_ENV_CAPACITY: usize = 500;

/// The fields of a block header that an execution environment is built from.
#[derive(Clone, Copy, Debug, PartialEq, Eq)]
pub struct BlockHeader {
    /// The block's number; absent in a malformed answer.
    pub number: Option<BlockNumber>,
    pub timestamp: u64,
    /// The account that receives the block's fees.
    pub miner: Address,
    pub difficulty: U256,
    pub mix_hash: Option<B256>,
    pub base_fee_per_gas: Option<u128>,
    pub gas_limit: u128,
}

/// What is cached of one block of one source. The header may be absent
/// while the gas price is known.
#[derive(Clone, Copy, Debug, PartialEq, Eq)]
pub struct BlockEnvironment {
    /// The header of the block, where the provider had one.
    pub block: Option<BlockHeader>,
    /// The gas price that the provider quoted.
    pub gas_price: u128,
}

impl Default for BlockEnvironment {
    fn default() -> (r: Self)
        ensures
            r == (BlockEnvironment { block: None, gas_price: 0 }),
    {
        BlockEnvironment { block: None, gas_price: 0 }
    }
}

/// A map from fork sources to numbers.
pub type SourceNumbers = Map<Seq<char>, u64>;

/// The key of a block environment: the fork source and the block.
pub type BlockEnvKey = (Seq<char>, BlockNumber);

/// A map from sources and blocks to block environments.
pub type BlockEnvironments = Map<BlockEnvKey, BlockEnvironment>;

/// The numbers that the map holds, by fork source.
pub uninterp spec fn source_numbers(map: &DashMap<String, u64>) -> SourceNumbers;

/// `DashMap::new`: an empty map.
#[verifier::external_body]
fn source_numbers_new() -> (r: DashMap<String, u64>)
    ensures
        source_numbers(&r) == no_numbers(),
{
    DashMap::new()
}

/// `DashMap::get`: a copy of the number under `source`, if the map holds one.
#[verifier::external_body]
fn source_numbers_get(map: &DashMap<String, u64>, source: &str) -> (r: Option<u64>)
    ensures
        r is Some <==> source_numbers(map).contains_key(source@),
        r is Some ==> r->0 == source_numbers(map)[source@],
{
    map.get(source).map(|number| *number)
}

/// `DashMap::insert`: writes `number` under `source`; nothing else changes.
#[verifier::external_body]
fn source_numbers_insert(map: &mut DashMap<String, u64>, source: String, number: u64)
    ensures
        source_numbers(final(map)) == source_numbers(old(map)).insert(source@, number),
{
    map.insert(source, number);
}

/// The map that holds no number.
pub open spec fn no_numbers() -> SourceNumbers {
    Map::empty()
}

/// The map that holds no block environment.
pub open spec fn no_block_environments() -> BlockEnvironments {
    Map::empty()
}

/// The bounded store of block environments: a `quick_cache::sync::Cache`
/// keyed by fork source and block. The verifier does not look inside; what
/// it holds is `block_environments`.
#[verifier::external_body]
pub struct BlockEnvStore {
    inner: Cache<(String, u64), BlockEnvironment>,
}

/// The block environments that the store holds, by source and block.
pub uninterp spec fn block_environments(store: &BlockEnvStore) -> BlockEnvironments;

/// The number of entries below which the store evicts nothing on an insert:
/// the capacity of one shard of the store. A store that holds fewer entries
/// than that has no shard at its capacity.
pub uninterp spec fn block_env_room(store: &BlockEnvStore) -> nat;

/// `Cache::new`: an empty store. Each shard of it holds at least 32 entries,
/// or `capacity` entries where that is less, before anything is evicted.
#[verifier::external_body]
fn block_env_store_new(capacity: usize) -> (r: BlockEnvStore)
    ensures
        block_environments(&r) == no_block_environments(),
        capacity >= 32 ==> block_env_room(&r) >= 32,
        capacity < 32 ==> block_env_room(&r) >= capacity,
{
    BlockEnvStore { inner: Cache::new(capacity) }
}

/// `Cache::get`: a copy of the environment under the key, if the store
/// holds one.
#[verifier::external_body]
fn block_env_store_get(store: &BlockEnvStore, source: &str, block_number: BlockNumber) -> (r:
    Option<BlockEnvironment>)
    ensures
        r is Some <==> block_environments(store).contains_key((source@, block_number)),
        r is Some ==> r->0 == block_environments(store)[(source@, block_number)],
{
    store.inner.get(&(source.to_owned(), block_number))
}

/// `Cache::insert`: writes the environment under the key. The store may
/// evict entries to make room, the one just written among them; what stays
/// is unchanged. Below its room the store evicts nothing.
#[verifier::external_body]
fn block_env_store_insert(
    store: &mut BlockEnvStore,
    source: String,
    block_number: BlockNumber,
    block_env: BlockEnvironment,
)
    ensures
        block_env_stored(
            block_environments(old(store)),
            block_environments(final(store)),
            (source@, block_number),
            block_env,
        ),
        block_environments(old(store)).dom().finite() && block_environments(old(store)).len()
            < block_env_room(old(store)) ==> block_environments(final(store))
            == block_environments(old(store)).insert((source@, block_number), block_env),
        block_env_room(final(store)) == block_env_room(old(store)),
{
    store.inner.insert((source, block_number), block_env)
}

/// `after` is `before` with `block_env` written under `key`, less whatever
/// was evicted.
pub open spec fn block_env_stored(
    before: BlockEnvironments,
    after: BlockEnvironments,
    key: BlockEnvKey,
    block_env: BlockEnvironment,
) -> bool {
    &&& after.dom().subset_of(before.dom().insert(key))
    &&& after.contains_key(key) ==> after[key] == block_env
    &&& forall|k: BlockEnvKey| k != key && #[trigger] after.contains_key(k) ==> after[k] == before[k]
}

/// What a chain-id query decides.
#[derive(Clone, Copy, Debug, PartialEq, Eq)]
pub enum ChainIdLookup {
    /// The cache holds the chain id; no fetch is needed.
    Cached(ChainId),
    /// The cache holds none: fetch the chain id.
    Fetch,
}

impl ChainIdLookup {
    /// The decision that fits what the cache holds for the source.
    pub open spec fn decides(self, chain_ids: SourceNumbers, source: Seq<char>) -> bool {
        match self {
            ChainIdLookup::Cached(id) => chain_ids.contains_key(source) && chain_ids[source] == id,
            ChainIdLookup::Fetch => !chain_ids.contains_key(source),
        }
    }
}

/// What a block-environment query decides.
#[derive(Clone, Copy, Debug, PartialEq, Eq)]
pub enum BlockEnvLookup {
    /// The cache holds the environment with its header; no fetch is needed.
    Cached(BlockEnvironment),
    /// The cache holds this gas price but no header: fetch the header only.
    FetchHeader { gas_price: u128 },
    /// The cache holds nothing: fetch header and gas price, both at once.
    FetchHeaderAndGasPrice,
}

/// The decision that fits what the block environments hold under `key`.
pub open spec fn block_env_decision(block_envs: BlockEnvironments, key: BlockEnvKey)
    -> BlockEnvLookup {
    if !block_envs.contains_key(key) {
        BlockEnvLookup::FetchHeaderAndGasPrice
    } else if block_envs[key].block is None {
        BlockEnvLookup::FetchHeader { gas_price: block_envs[key].gas_price }
    } else {
        BlockEnvLookup::Cached(block_envs[key])
    }
}

/// The environment that a fetched header makes with a gas price.
pub open spec fn with_header(block: Option<BlockHeader>, gas_price: u128) -> BlockEnvironment {
    BlockEnvironment { block, gas_price }
}

/// The chain ids after the provider answered a fetch for `source`: an
/// answer is kept, a failure changes nothing.
pub open spec fn chain_ids_after(
    before: SourceNumbers,
    source: Seq<char>,
    fetched: Result<ChainId, Error>,
) -> SourceNumbers {
    match fetched {
        Ok(chain_id) => before.insert(source, chain_id),
        Err(_) => before,
    }
}

/// A block environment cached without its header asks for the header only,
/// never for the gas price again, and the header that arrives is joined to
/// the cached gas price.
pub proof fn law_partial_entry_fetches_header_only(
    block_envs: BlockEnvironments,
    key: BlockEnvKey,
    gas_price: u128,
    header: BlockHeader,
)
    requires
        block_envs.contains_key(key),
        block_envs[key] == (BlockEnvironment { block: None, gas_price }),
    ensures
        block_env_decision(block_envs, key) == (BlockEnvLookup::FetchHeader { gas_price }),
        with_header(Some(header), gas_price).block == Some(header),
        with_header(Some(header), gas_price).gas_price == gas_price,
{
}

/// A failed chain-id fetch is not cached, an answered one is cached for
/// good: where a source has no chain id, a failure leaves it without one and
/// the next query fetches again; once an answer came, every later query is
/// answered from the cache, whatever later fetches for any source return.
pub proof fn law_chain_id_fetched_once(
    chain_ids: SourceNumbers,
    source: Seq<char>,
    failure: Error,
    chain_id: ChainId,
    other_source: Seq<char>,
    later: Result<ChainId, Error>,
)
    requires
        !chain_ids.contains_key(source),
        other_source != source,
    ensures
        ChainIdLookup::Fetch.decides(chain_ids_after(chain_ids, source, Err(failure)), source),
        ChainIdLookup::Cached(chain_id).decides(
            chain_ids_after(chain_ids, source, Ok(chain_id)),
            source,
        ),
        ChainIdLookup::Cached(chain_id).decides(
            chain_ids_after(chain_ids_after(chain_ids, source, Ok(chain_id)), other_source, later),
            source,
        ),
{
}

/// What the cache holds.
pub struct EnvironmentView {
    /// Fork source to chain id.
    pub chain_ids: SourceNumbers,
    /// Fork source to the block that "latest" is pinned to.
    pub latest_blocks: SourceNumbers,
    /// Fork source and block to block environment.
    pub block_envs: BlockEnvironments,
}

/// Cache of chain ids, pinned latest blocks and block environments.
pub struct EnvironmentCache {
    chain_ids_by_fork_url: DashMap<String, u64>,
    latest_block_map: DashMap<String, u64>,
    block_env_map: BlockEnvStore,
}

impl View for EnvironmentCache {
    type V = EnvironmentView;

    closed spec fn view(&self) -> EnvironmentView {
        EnvironmentView {
            chain_ids: source_numbers(&self.chain_ids_by_fork_url),
            latest_blocks: source_numbers(&self.latest_block_map),
            block_envs: block_environments(&self.block_env_map),
        }
    }
}

impl EnvironmentCache {
    /// The number of block environments below which none is evicted.
    pub closed spec fn room(&self) -> nat {
        block_env_room(&self.block_env_map)
    }

    /// The cache holds finitely many block environments.
    pub open spec fn wf(&self) -> bool {
        self@.block_envs.dom().finite()
    }

    /// An empty cache.
    pub fn new() -> (cache: EnvironmentCache)
        ensures
            cache.wf(),
            cache@.chain_ids == no_numbers(),
            cache@.latest_blocks == no_numbers(),
            cache@.block_envs == no_block_environments(),
            cache.room() >= 32,
    {
        EnvironmentCache {
            chain_ids_by_fork_url: source_numbers_new(),
            latest_block_map: source_numbers_new(),
            block_env_map: block_env_store_new(BLOCK_ENV_CAPACITY),
        }
    }

    /// Decides a query for the chain id of the source. The cache is not
    /// changed.
    pub fn get_chain_id(&self, fork_url: &str) -> (r: ChainIdLookup)
        ensures
            r.decides(self@.chain_ids, fork_url@),
    {
        match source_numbers_get(&self.chain_ids_by_fork_url, fork_url) {
            Some(chain_id) => ChainIdLookup::Cached(chain_id),
            None => ChainIdLookup::Fetch,
        }
    }

    /// Takes what the provider answered to a chain-id fetch. A chain id is
    /// cached for good and returned; a failure is returned as it is and
    /// nothing is cached.
    pub fn chain_id_fetched(&mut self, fork_url: &str, fetched: Result<ChainId, Error>) -> (r:
        Result<ChainId, Error>)
        ensures
            r == fetched,
            final(self)@.latest_blocks == old(self)@.latest_blocks,
            final(self)@.block_envs == old(self)@.block_envs,
            final(self).room() == old(self).room(),
            final(self)@.chain_ids == chain_ids_after(old(self)@.chain_ids, fork_url@, fetched),
    {
        match fetched {
            Ok(chain_id) => {
                source_numbers_insert(&mut self.chain_ids_by_fork_url, fork_url.to_owned(), chain_id);
                Ok(chain_id)
            },
            Err(e) => Err(e),
        }
    }

    /// The block that "latest" is pinned to for the source, if one was set.
    pub fn get_latest_block_number(&self, fork_url: &str) -> (r: Option<BlockNumber>)
        ensures
            r is Some <==> self@.latest_blocks.contains_key(fork_url@),
            r is Some ==> r->0 == self@.latest_blocks[fork_url@],
    {
        source_numbers_get(&self.latest_block_map, fork_url)
    }

    /// Pins "latest" for the source to the block.
    pub fn set_latest_block_number(&mut self, fork_url: &str, block_number: BlockNumber)
        ensures
            final(self)@.latest_blocks == old(self)@.latest_blocks.insert(fork_url@, block_number),
            final(self)@.chain_ids == old(self)@.chain_ids,
            final(self)@.block_envs == old(self)@.block_envs,
            final(self).room() == old(self).room(),
    {
        source_numbers_insert(&mut self.latest_block_map, fork_url.to_owned(), block_number);
    }

    /// Decides a query for the environment of the block of the source: the
    /// cached environment where its header is there; a fetch of the header
    /// alone where only the gas price is cached; a fetch of both where
    /// nothing is cached. The cache is not changed.
    pub fn get_block_env_by_number(&self, fork_url: &str, block_number: BlockNumber) -> (r:
        BlockEnvLookup)
        ensures
            r == block_env_decision(self@.block_envs, (fork_url@, block_number)),
    {
        match block_env_store_get(&self.block_env_map, fork_url, block_number) {
            Some(block_env) => {
                if block_env.block.is_none() {
                    BlockEnvLookup::FetchHeader { gas_price: block_env.gas_price }
                } else {
                    BlockEnvLookup::Cached(block_env)
                }
            },
            None => BlockEnvLookup::FetchHeaderAndGasPrice,
        }
    }

    /// Takes what the provider answered to a fetch of the header alone, and
    /// the gas price that the query found cached. The header, present or
    /// not, is joined to that gas price; the environment is stored and
    /// returned. A failure is returned as it is and nothing is stored.
    pub fn header_fetched(
        &mut self,
        fork_url: &str,
        block_number: BlockNumber,
        gas_price: u128,
        fetched: Result<Option<BlockHeader>, Error>,
    ) -> (r: Result<BlockEnvironment, Error>)
        requires
            old(self).wf(),
        ensures
            final(self).wf(),
            final(self).room() == old(self).room(),
            final(self)@.chain_ids == old(self)@.chain_ids,
            final(self)@.latest_blocks == old(self)@.latest_blocks,
            fetched is Err ==> r is Err && r->Err_0 == fetched->Err_0 && final(self)@ == old(self)@,
            fetched is Ok ==> r == Ok::<BlockEnvironment, Error>(
                with_header(fetched->Ok_0, gas_price),
            ),
            fetched is Ok ==> block_env_stored(
                old(self)@.block_envs,
                final(self)@.block_envs,
                (fork_url@, block_number),
                with_header(fetched->Ok_0, gas_price),
            ),
            fetched is Ok && old(self)@.block_envs.len() < old(self).room() ==> final(self)@.block_envs == old(self)@.block_envs.insert(
                (fork_url@, block_number),
                with_header(fetched->Ok_0, gas_price),
            ),
    {
        match fetched {
            Ok(block) => {
                let block_env = BlockEnvironment { block, gas_price };
                block_env_store_insert(
                    &mut self.block_env_map,
                    fork_url.to_owned(),
                    block_number,
                    block_env,
                );
                Ok(block_env)
            },
            Err(e) => Err(e),
        }
    }

    /// Takes what the provider answered to a fetch of header and gas price.
    /// Where both came, the environment made of them is stored and returned.
    /// Where either failed, its failure is returned (the header's, if both
    /// failed) and nothing is stored.
    pub fn header_and_gas_price_fetched(
        &mut self,
        fork_url: &str,
        block_number: BlockNumber,
        header: Result<Option<BlockHeader>, Error>,
        gas_price: Result<u128, Error>,
    ) -> (r: Result<BlockEnvironment, Error>)
        requires
            old(self).wf(),
        ensures
            final(self).wf(),
            final(self).room() == old(self).room(),
            final(self)@.chain_ids == old(self)@.chain_ids,
            final(self)@.latest_blocks == old(self)@.latest_blocks,
            header is Err ==> r is Err && r->Err_0 == header->Err_0,
            header is Ok && gas_price is Err ==> r is Err && r->Err_0 == gas_price->Err_0,
            header is Err || gas_price is Err ==> final(self)@ == old(self)@,
            header is Ok && gas_price is Ok ==> r == Ok::<BlockEnvironment, Error>(
                with_header(header->Ok_0, gas_price->Ok_0),
            ),
            header is Ok && gas_price is Ok ==> block_env_stored(
                old(self)@.block_envs,
                final(self)@.block_envs,
                (fork_url@, block_number),
                with_header(header->Ok_0, gas_price->Ok_0),
            ),
            header is Ok && gas_price is Ok && old(self)@.block_envs.len() < old(self).room()
                ==> final(self)@.block_envs == old(self)@.block_envs.insert(
                (fork_url@, block_number),
                with_header(header->Ok_0, gas_price->Ok_0),
            ),
    {
        match header {
            Ok(block) => match gas_price {
                Ok(price) => self.header_fetched(fork_url, block_number, price, Ok(block)),
                Err(e) => Err(e),
            },
            Err(e) => Err(e),
        }
    }

    /// Decides a query for chain id and block environment together. What
    /// the two decisions ask for may be fetched at the same time.
    pub fn get_fork_info(&self, fork_url: &str, block_number: BlockNumber) -> (r: (
        ChainIdLookup,
        BlockEnvLookup,
    ))
        ensures
            r.0.decides(self@.chain_ids, fork_url@),
            r.1 == block_env_decision(self@.block_envs, (fork_url@, block_number)),
    {
        (self.get_chain_id(fork_url), self.get_block_env_by_number(fork_url, block_number))
    }
}

/// Joins the two halves of a fork-info query: both, or the failure of the
/// one that failed (the chain id's, if both failed).
pub fn join_fork_info(chain_id: Result<ChainId, Error>, block_env: Result<BlockEnvironment, Error>)
    -> (r: Result<(ChainId, BlockEnvironment), Error>)
    ensures
        chain_id is Err ==> r is Err && r->Err_0 == chain_id->Err_0,
        chain_id is Ok && block_env is Err ==> r is Err && r->Err_0 == block_env->Err_0,
        chain_id is Ok && block_env is Ok ==> r == Ok::<(ChainId, BlockEnvironment), Error>(
            (chain_id->Ok_0, block_env->Ok_0),
        ),
{
    match chain_id {
        Ok(id) => match block_env {
            Ok(env) => Ok((id, env)),
            Err(e) => Err(e),
        },
        Err(e) => Err(e),
    }
}

impl Default for EnvironmentCache {
    fn default() -> (cache: Self)
        ensures
            cache.wf(),
            cache@.chain_ids == no_numbers(),
            cache@.latest_blocks == no_numbers(),
            cache@.block_envs == no_block_environments(),
            cache.room() >= 32,
    {
        EnvironmentCache::new()
    }
}

} // verus!
