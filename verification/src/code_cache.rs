//! A cache of what is known about an account's code over the blocks of a
//! chain.
//!
//! Deployed code is taken to be immutable: code seen at one block is there at
//! every later block, and an account seen without code at one block had none
//! at any earlier block. One observation therefore answers for a whole range
//! of blocks.

use vstd::prelude::*;
use quick_cache::sync::Cache;
use crate::primitives::{Address, ChainId, BlockNumber};
use crate::error::Error;

verus! {

/// Number of entries that a `CodeCache` is made for.
pub const CODE_CACHE_CAPACITY: usize = 10_000;

/// What has been observed of one account on one chain.
#[derive(Debug, Clone)]
pub struct CodeCacheEntry {
    /// The earliest block at which code was observed, with that code.
    pub code_detected: Option<(BlockNumber, Vec<u8>)>,
    /// The latest block at which no code was observed.
    pub no_code_detected_block_number: Option<BlockNumber>,
}

/// The mathematical content of a `CodeCacheEntry`.
pub struct CodeHistory {
    pub code_detected: Option<(BlockNumber, Seq<u8>)>,
    pub no_code_detected_block_number: Option<BlockNumber>,
}

impl CodeHistory {
    /// The history in which nothing was observed.
    pub open spec fn unknown() -> CodeHistory {
        CodeHistory { code_detected: None, no_code_detected_block_number: None }
    }

    /// Code that is recorded as detected is not empty.
    pub open spec fn wf(self) -> bool {
        self.code_detected matches Some((_, code)) ==> code.len() > 0
    }

    /// What the history proves about the code at `block_number`: the code,
    /// the empty sequence for "no code", or `None` where it proves nothing.
    pub open spec fn lookup(self, block_number: BlockNumber) -> Option<Seq<u8>> {
        match self.code_detected {
            Some((earliest, code)) if earliest <= block_number => Some(code),
            _ => match self.no_code_detected_block_number {
                Some(latest) if latest >= block_number => Some(Seq::empty()),
                _ => None,
            },
        }
    }

    /// The history after `code` was observed at `block_number`. A detection
    /// only ever moves to an earlier block, an absence to a later one.
    pub open spec fn observe(self, block_number: BlockNumber, code: Seq<u8>) -> CodeHistory {
        if code.len() == 0 {
            if self.no_code_detected_block_number is Some
                && self.no_code_detected_block_number->0 >= block_number {
                self
            } else {
                CodeHistory { no_code_detected_block_number: Some(block_number), ..self }
            }
        } else {
            if self.code_detected matches Some((earliest, _)) && earliest <= block_number {
                self
            } else {
                CodeHistory { code_detected: Some((block_number, code)), ..self }
            }
        }
    }
}

impl View for CodeCacheEntry {
    type V = CodeHistory;

    open spec fn view(&self) -> CodeHistory {
        CodeHistory {
            code_detected: match self.code_detected {
                Some((b, code)) => Some((b, code@)),
                None => None,
            },
            no_code_detected_block_number: self.no_code_detected_block_number,
        }
    }
}

impl Default for CodeCacheEntry {
    fn default() -> (r: Self)
        ensures
            r@ == CodeHistory::unknown(),
    {
        CodeCacheEntry { code_detected: None, no_code_detected_block_number: None }
    }
}

/// The key of an entry: the account and the chain it lives on.
pub type CodeKey = (Address, ChainId);

/// The histories that a map of entries holds.
pub type CodeHistories = Map<CodeKey, CodeHistory>;

/// The bounded store behind a `CodeCache`: a `quick_cache::sync::Cache` from
/// keys to entries. The verifier does not look inside; what it holds is
/// `code_entries`.
#[verifier::external_body]
pub struct CodeStore {
    inner: Cache<CodeKey, CodeCacheEntry>,
}

/// The map that holds no history.
pub open spec fn no_histories() -> CodeHistories {
    Map::empty()
}

/// The entries that the store holds, by key.
pub uninterp spec fn code_entries(store: &CodeStore) -> CodeHistories;

/// The number of entries below which the store evicts nothing on an insert:
/// the capacity of one shard of the store. A store that holds fewer entries
/// than that has no shard at its capacity.
pub uninterp spec fn code_room(store: &CodeStore) -> nat;

/// `Cache::new`: an empty store. Each shard of it holds at least 32 entries,
/// or `capacity` entries where that is less, before anything is evicted.
#[verifier::external_body]
fn code_store_new(capacity: usize) -> (r: CodeStore)
    ensures
        code_entries(&r) == no_histories(),
        capacity >= 32 ==> code_room(&r) >= 32,
        capacity < 32 ==> code_room(&r) >= capacity,
{
    CodeStore { inner: Cache::new(capacity) }
}

/// `Cache::get`: a copy of the entry under `key`, if the store holds one.
#[verifier::external_body]
fn code_store_get(store: &CodeStore, key: &CodeKey) -> (r: Option<
    CodeCacheEntry,
>)
    ensures
        r is Some <==> code_entries(store).contains_key(*key),
        r is Some ==> r->0@ == code_entries(store)[*key],
{
    store.inner.get(key)
}

/// `Cache::insert`: writes `entry` under `key`. The store may evict entries
/// to make room, the one just written among them; what stays is unchanged.
/// Below its room the store evicts nothing.
#[verifier::external_body]
fn code_store_insert(store: &mut CodeStore, key: CodeKey, entry: CodeCacheEntry)
    ensures
        stored(code_entries(old(store)), code_entries(final(store)), key, entry@),
        code_entries(old(store)).dom().finite() && code_entries(old(store)).len() < code_room(
            old(store),
        ) ==> code_entries(final(store)) == code_entries(old(store)).insert(key, entry@),
        code_room(final(store)) == code_room(old(store)),
{
    store.inner.insert(key, entry)
}

/// `after` is `before` with `history` written under `key`, less whatever
/// was evicted.
pub open spec fn stored(
    before: CodeHistories,
    after: CodeHistories,
    key: CodeKey,
    history: CodeHistory,
) -> bool {
    &&& after.dom().subset_of(before.dom().insert(key))
    &&& after.contains_key(key) ==> after[key] == history
    &&& forall|k: CodeKey| k != key && #[trigger] after.contains_key(k) ==> after[k] == before[k]
}

/// Every history of the map is well formed.
pub open spec fn histories_wf(histories: CodeHistories) -> bool {
    forall|k: CodeKey| #[trigger] histories.contains_key(k) ==> histories[k].wf()
}

/// The history under `key`, or the unknown history where there is none.
pub open spec fn history_of(histories: CodeHistories, key: CodeKey) -> CodeHistory {
    if histories.contains_key(key) {
        histories[key]
    } else {
        CodeHistory::unknown()
    }
}

/// What the histories prove about the code under `key` at `block_number`.
pub open spec fn known_code(histories: CodeHistories, key: CodeKey, block_number: BlockNumber)
    -> Option<Seq<u8>> {
    history_of(histories, key).lookup(block_number)
}

/// A query for the code under `key` at `block_number`, made on `before`,
/// returned `code` and left `after`: either the histories proved `code` and
/// did not change, or they proved nothing, `code` was fetched, and the
/// observation was stored.
pub open spec fn query_returned(
    before: CodeHistories,
    after: CodeHistories,
    key: CodeKey,
    block_number: BlockNumber,
    code: Seq<u8>,
) -> bool {
    ||| known_code(before, key, block_number) == Some(code) && after == before
    ||| known_code(before, key, block_number) is None && stored(
        before,
        after,
        key,
        history_of(before, key).observe(block_number, code),
    )
}

/// Code that a query found at one block answers every later block: after a
/// query at `b1` returned the non-empty `code`, the histories it left prove
/// `code` at any `b2` from `b1` on, so that no fetch follows. The entry must
/// not have been evicted by the store in between.
pub proof fn law_code_found_answers_later_blocks(
    before: CodeHistories,
    after: CodeHistories,
    key: CodeKey,
    b1: BlockNumber,
    b2: BlockNumber,
    code: Seq<u8>,
)
    requires
        histories_wf(before),
        b1 <= b2,
        code.len() > 0,
        query_returned(before, after, key, b1, code),
        after.contains_key(key),
    ensures
        known_code(after, key, b2) == Some(code),
{
    let history = history_of(before, key);
    if known_code(before, key, b1) == Some(code) {
        assert(before.contains_key(key));
        assert(history.code_detected is Some);
    } else {
        assert(after[key] == history.observe(b1, code));
    }
}

/// No code at one block answers every earlier block: after a query at `b2`
/// returned no code, the histories it left prove no code at any `b1` up to
/// `b2`, so that no fetch follows. The entry must not have been evicted by
/// the store in between.
pub proof fn law_no_code_answers_earlier_blocks(
    before: CodeHistories,
    after: CodeHistories,
    key: CodeKey,
    b1: BlockNumber,
    b2: BlockNumber,
)
    requires
        histories_wf(before),
        b1 <= b2,
        query_returned(before, after, key, b2, Seq::empty()),
        after.contains_key(key),
    ensures
        known_code(after, key, b1) == Some(Seq::<u8>::empty()),
{
    let history = history_of(before, key);
    let none: Seq<u8> = Seq::empty();
    if known_code(before, key, b2) == Some(none) {
        assert(before.contains_key(key));
        assert(history.wf());
    } else {
        assert(after[key] == history.observe(b2, none));
    }
}

/// What a code query decides: the answer, or that the provider must be asked.
#[derive(Debug, Clone, PartialEq, Eq)]
pub enum CodeLookup {
    /// The cache proves this code; no fetch is needed.
    Cached(Vec<u8>),
    /// The cache proves nothing: fetch the code at the block queried.
    Fetch,
}

impl CodeLookup {
    /// The decision that fits what the histories prove: the code where they
    /// prove it, a fetch where they prove nothing.
    pub open spec fn decides(self, known: Option<Seq<u8>>) -> bool {
        match self {
            CodeLookup::Cached(code) => known == Some(code@),
            CodeLookup::Fetch => known is None,
        }
    }
}

/// Cache of code histories, one per account and chain.
pub struct CodeCache {
    store: CodeStore,
}

impl View for CodeCache {
    type V = CodeHistories;

    closed spec fn view(&self) -> CodeHistories {
        code_entries(&self.store)
    }
}

impl CodeCache {
    /// The number of entries below which nothing is evicted.
    pub closed spec fn room(&self) -> nat {
        code_room(&self.store)
    }

    /// The cache holds finitely many histories, all well formed.
    pub open spec fn wf(&self) -> bool {
        &&& self@.dom().finite()
        &&& histories_wf(self@)
    }

    /// An empty cache for `CODE_CACHE_CAPACITY` entries.
    pub fn new() -> (cache: CodeCache)
        ensures
            cache.wf(),
            cache@ == no_histories(),
            cache.room() >= 32,
    {
        CodeCache { store: code_store_new(CODE_CACHE_CAPACITY) }
    }

    /// The entry held for the account on the chain, if any.
    pub fn entry(&self, address: Address, chain: ChainId) -> (r: Option<CodeCacheEntry>)
        ensures
            r is Some <==> self@.contains_key((address, chain)),
            r is Some ==> r->0@ == self@[(address, chain)],
    {
        code_store_get(&self.store, &(address, chain))
    }

    /// The code of the account at the block, where the cache proves it.
    ///
    /// Code detected at the block or earlier is the code at the block. No code
    /// at the block or later means no code at the block.
    pub fn check_cache(&self, address: Address, chain: ChainId, block_number: BlockNumber) -> (r:
        Option<Vec<u8>>)
        ensures
            r is Some <==> known_code(self@, (address, chain), block_number) is Some,
            r is Some ==> r->0@ == known_code(self@, (address, chain), block_number)->0,
    {
        match code_store_get(&self.store, &(address, chain)) {
            Some(entry) => {
                let CodeCacheEntry { code_detected, no_code_detected_block_number } = entry;
                if let Some((code_detected, code)) = code_detected {
                    if code_detected <= block_number {
                        return Some(code);
                    }
                }
                if let Some(no_code_detected_block_number) = no_code_detected_block_number {
                    if no_code_detected_block_number >= block_number {
                        return Some(Vec::new());
                    }
                }
                None
            },
            None => None,
        }
    }

    /// Records that `code` was fetched for the account at the block. The
    /// account's history takes the observation in; the store may evict.
    pub fn cache_code(
        &mut self,
        address: Address,
        chain: ChainId,
        block_number: BlockNumber,
        code: Vec<u8>,
    )
        requires
            old(self).wf(),
        ensures
            final(self).wf(),
            final(self).room() == old(self).room(),
            stored(
                old(self)@,
                final(self)@,
                (address, chain),
                history_of(old(self)@, (address, chain)).observe(block_number, code@),
            ),
            old(self)@.len() < old(self).room() ==> final(self)@ == old(self)@.insert(
                (address, chain),
                history_of(old(self)@, (address, chain)).observe(block_number, code@),
            ),
    {
        let key = (address, chain);
        let mut history = match code_store_get(&self.store, &key) {
            Some(entry) => entry,
            None => CodeCacheEntry::default(),
        };
        if code.len() == 0 {
            let keep = match history.no_code_detected_block_number {
                Some(latest) => latest >= block_number,
                None => false,
            };
            if !keep {
                history.no_code_detected_block_number = Some(block_number);
            }
        } else {
            let keep = match &history.code_detected {
                Some((earliest, _)) => *earliest <= block_number,
                None => false,
            };
            if !keep {
                history.code_detected = Some((block_number, code));
            }
        }
        proof {
            assert(history@ == history_of(old(self)@, key).observe(block_number, code@));
            assert(history@.wf());
        }
        code_store_insert(&mut self.store, key, history);
    }
    /// Decides a query for the code of the account at the block: the code
    /// where the cache proves it, else that it must be fetched. The cache is
    /// not changed.
    pub fn get_code(&self, address: Address, chain: ChainId, block_number: BlockNumber) -> (r:
        CodeLookup)
        ensures
            r.decides(known_code(self@, (address, chain), block_number)),
    {
        match self.check_cache(address, chain, block_number) {
            Some(code) => CodeLookup::Cached(code),
            None => CodeLookup::Fetch,
        }
    }

    /// Takes what the provider answered to a fetch that `get_code` asked for.
    /// Fetched code is recorded and returned; a failure is returned as it is
    /// and leaves the cache unchanged.
    pub fn code_fetched(
        &mut self,
        address: Address,
        chain: ChainId,
        block_number: BlockNumber,
        fetched: Result<Vec<u8>, Error>,
    ) -> (r: Result<Vec<u8>, Error>)
        requires
            old(self).wf(),
        ensures
            final(self).wf(),
            final(self).room() == old(self).room(),
            fetched is Err ==> r == fetched && final(self)@ == old(self)@,
            fetched is Ok ==> r is Ok && r->Ok_0@ == fetched->Ok_0@,
            fetched is Ok ==> stored(
                old(self)@,
                final(self)@,
                (address, chain),
                history_of(old(self)@, (address, chain)).observe(block_number, fetched->Ok_0@),
            ),
            fetched is Ok && old(self)@.len() < old(self).room() ==> final(self)@ == old(self)@.insert(
                (address, chain),
                history_of(old(self)@, (address, chain)).observe(block_number, fetched->Ok_0@),
            ),
    {
        match fetched {
            Ok(code) => {
                let copy = code.clone();
                assert(copy@ =~= code@);
                self.cache_code(address, chain, block_number, copy);
                Ok(code)
            },
            Err(e) => Err(e),
        }
    }
}

impl Default for CodeCache {
    fn default() -> (cache: Self)
        ensures
            cache.wf(),
            cache@ == no_histories(),
            cache.room() >= 32,
    {
        CodeCache::new()
    }
}

} // verus!
