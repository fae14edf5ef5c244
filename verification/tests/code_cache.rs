use evm_fork_cache::code_cache::{CodeCache, CodeCacheEntry, CodeLookup, CODE_CACHE_CAPACITY};
use evm_fork_cache::error::Error;
use evm_fork_cache::primitives::Address;

const MAINNET: u64 = 1;

#[test]
fn test_check_code_cache() {
    let mut cache = CodeCache::default();
    let address = Address([1; 20]);
    let chain = MAINNET;
    let block_number = 1000;

    // Cache empty
    assert_eq!(cache.check_cache(address, chain, block_number), None);

    let code = vec![1, 2, 3];

    // Cache with code
    cache.cache_code(address, chain, block_number, code.clone());
    assert_eq!(cache.check_cache(address, chain, block_number), Some(code.clone()));
    assert_eq!(cache.check_cache(address, chain, block_number + 1), Some(code));

    assert_eq!(cache.check_cache(address, chain, block_number - 1), None);

    let block_number = block_number - 10;

    // Cache with no code
    cache.cache_code(address, chain, block_number, Vec::new());
    assert_eq!(cache.check_cache(address, chain, block_number), Some(Vec::new()));
    assert_eq!(cache.check_cache(address, chain, block_number - 1), Some(Vec::new()));

    assert_eq!(cache.check_cache(address, chain, block_number + 1), None);
}

#[test]
fn test_cache_code() {
    let mut cache = CodeCache::default();
    let address = Address([1; 20]);
    let chain = MAINNET;
    let block_number = 1000;

    let code = vec![1, 2, 3];

    cache.cache_code(address, chain, block_number, code.clone());
    assert!(cache.entry(address, chain).unwrap().no_code_detected_block_number.is_none());
    assert_eq!(cache.entry(address, chain).unwrap().code_detected, Some((block_number, code)));

    let code = Vec::new();
    let block_number = block_number - 10;

    cache.cache_code(address, chain, block_number, code);
    assert_eq!(
        cache.entry(address, chain).unwrap().no_code_detected_block_number,
        Some(block_number)
    );
}

#[test]
fn capacity_is_ten_thousand() {
    assert_eq!(CODE_CACHE_CAPACITY, 10_000);
}

#[test]
fn default_entry_knows_nothing() {
    let entry = CodeCacheEntry::default();
    assert_eq!(entry.code_detected, None);
    assert_eq!(entry.no_code_detected_block_number, None);
}

#[test]
fn entry_of_unknown_account_is_absent() {
    let cache = CodeCache::new();
    assert!(cache.entry(Address([7; 20]), MAINNET).is_none());
}

#[test]
fn detection_moves_only_to_earlier_blocks() {
    let mut cache = CodeCache::new();
    let address = Address([2; 20]);
    cache.cache_code(address, MAINNET, 100, vec![9]);
    // A later observation does not replace the earlier one.
    cache.cache_code(address, MAINNET, 150, vec![8, 8]);
    assert_eq!(cache.entry(address, MAINNET).unwrap().code_detected, Some((100, vec![9])));
    // An observation at the same block does not replace it either.
    cache.cache_code(address, MAINNET, 100, vec![7]);
    assert_eq!(cache.entry(address, MAINNET).unwrap().code_detected, Some((100, vec![9])));
    // An earlier one does.
    cache.cache_code(address, MAINNET, 50, vec![6]);
    assert_eq!(cache.entry(address, MAINNET).unwrap().code_detected, Some((50, vec![6])));
    assert_eq!(cache.entry(address, MAINNET).unwrap().no_code_detected_block_number, None);
}

#[test]
fn absence_moves_only_to_later_blocks() {
    let mut cache = CodeCache::new();
    let address = Address([3; 20]);
    cache.cache_code(address, MAINNET, 100, Vec::new());
    cache.cache_code(address, MAINNET, 90, Vec::new());
    assert_eq!(cache.entry(address, MAINNET).unwrap().no_code_detected_block_number, Some(100));
    cache.cache_code(address, MAINNET, 100, Vec::new());
    assert_eq!(cache.entry(address, MAINNET).unwrap().no_code_detected_block_number, Some(100));
    cache.cache_code(address, MAINNET, 120, Vec::new());
    assert_eq!(cache.entry(address, MAINNET).unwrap().no_code_detected_block_number, Some(120));
    assert_eq!(cache.entry(address, MAINNET).unwrap().code_detected, None);
}

#[test]
fn entries_are_kept_apart_by_chain_and_address() {
    let mut cache = CodeCache::new();
    let address = Address([4; 20]);
    cache.cache_code(address, 1, 10, vec![1]);
    assert_eq!(cache.check_cache(address, 1, 10), Some(vec![1]));
    assert_eq!(cache.check_cache(address, 5, 10), None);
    assert_eq!(cache.check_cache(Address([5; 20]), 1, 10), None);
}

#[test]
fn get_code_fetches_only_what_is_unknown() {
    let mut cache = CodeCache::new();
    let address = Address([6; 20]);
    assert_eq!(cache.get_code(address, MAINNET, 1000), CodeLookup::Fetch);
    let got = cache.code_fetched(address, MAINNET, 1000, Ok(vec![1, 2, 3]));
    assert_eq!(got, Ok(vec![1, 2, 3]));
    assert_eq!(cache.get_code(address, MAINNET, 1000), CodeLookup::Cached(vec![1, 2, 3]));
    assert_eq!(cache.get_code(address, MAINNET, 999), CodeLookup::Fetch);
}

#[test]
fn code_found_answers_later_blocks() {
    let mut cache = CodeCache::new();
    let address = Address([8; 20]);
    assert_eq!(cache.get_code(address, MAINNET, 100), CodeLookup::Fetch);
    assert_eq!(cache.code_fetched(address, MAINNET, 100, Ok(vec![0xfe])), Ok(vec![0xfe]));
    assert_eq!(cache.get_code(address, MAINNET, 100), CodeLookup::Cached(vec![0xfe]));
    assert_eq!(cache.get_code(address, MAINNET, 150), CodeLookup::Cached(vec![0xfe]));
    assert_eq!(cache.get_code(address, MAINNET, u64::MAX), CodeLookup::Cached(vec![0xfe]));
}

#[test]
fn no_code_answers_earlier_blocks() {
    let mut cache = CodeCache::new();
    let address = Address([9; 20]);
    assert_eq!(cache.get_code(address, MAINNET, 200), CodeLookup::Fetch);
    assert_eq!(cache.code_fetched(address, MAINNET, 200, Ok(Vec::new())), Ok(Vec::new()));
    assert_eq!(cache.get_code(address, MAINNET, 200), CodeLookup::Cached(Vec::new()));
    assert_eq!(cache.get_code(address, MAINNET, 150), CodeLookup::Cached(Vec::new()));
    assert_eq!(cache.get_code(address, MAINNET, 0), CodeLookup::Cached(Vec::new()));
    assert_eq!(cache.get_code(address, MAINNET, 201), CodeLookup::Fetch);
}

#[test]
fn failed_fetch_is_not_cached() {
    let mut cache = CodeCache::new();
    let address = Address([10; 20]);
    let failure = Error::Provider("connection refused".to_string());
    assert_eq!(cache.code_fetched(address, MAINNET, 5, Err(failure.clone())), Err(failure));
    assert!(cache.entry(address, MAINNET).is_none());
    assert_eq!(cache.get_code(address, MAINNET, 5), CodeLookup::Fetch);
}
