use evm_fork_cache::environment_cache::{
    join_fork_info, BlockEnvLookup, BlockEnvironment, BlockHeader, ChainIdLookup, EnvironmentCache,
    BLOCK_ENV_CAPACITY,
};
use evm_fork_cache::error::Error;
use evm_fork_cache::fork_init::{
    environment, missing_block, EnvironmentArgs, EnvironmentStep,
};
use evm_fork_cache::primitives::{Address, B256, U256};

const FORK_URL: &str = "http://localhost:8545";

fn failure() -> Error {
    Error::Provider("error sending request".to_string())
}

fn header() -> BlockHeader {
    BlockHeader {
        number: Some(1_000_000),
        timestamp: 1_455_404_053,
        miner: Address([0x2a; 20]),
        difficulty: U256([12_549_332_509_227, 0, 0, 0]),
        mix_hash: Some(B256([0x92; 32])),
        base_fee_per_gas: Some(7),
        gas_limit: 3_141_592,
    }
}

fn args() -> EnvironmentArgs {
    EnvironmentArgs {
        fork_url: FORK_URL.to_string(),
        memory_limit: 1 << 27,
        gas_price: None,
        override_chain_id: None,
        pin_block: Some(1_000_000),
        origin: Address([0x18; 20]),
        disable_block_gas_limit: false,
    }
}

#[test]
fn test_get_chain_id() {
    let mut environment_cache = EnvironmentCache::default();

    // Fails with bad provider
    assert_eq!(environment_cache.get_chain_id(FORK_URL), ChainIdLookup::Fetch);
    assert!(environment_cache.chain_id_fetched(FORK_URL, Err(failure())).is_err());
    assert_eq!(environment_cache.get_chain_id(FORK_URL), ChainIdLookup::Fetch);

    // Succeeds with good provider, caches the chain id
    assert_eq!(environment_cache.chain_id_fetched(FORK_URL, Ok(1)).unwrap(), 1);

    // Succeeds whatever the provider, returns the cached chain id
    assert_eq!(environment_cache.get_chain_id(FORK_URL), ChainIdLookup::Cached(1));
}

#[test]
fn test_get_block_env_by_number() {
    let mut environment_cache = EnvironmentCache::default();

    // Fails with bad provider
    assert_eq!(
        environment_cache.get_block_env_by_number(FORK_URL, 1_000_000),
        BlockEnvLookup::FetchHeaderAndGasPrice
    );
    assert!(environment_cache
        .header_and_gas_price_fetched(FORK_URL, 1_000_000, Err(failure()), Err(failure()))
        .is_err());
    assert_eq!(
        environment_cache.get_block_env_by_number(FORK_URL, 1_000_000),
        BlockEnvLookup::FetchHeaderAndGasPrice
    );

    // Succeeds with good provider, caches the block env
    let block_env = environment_cache
        .header_and_gas_price_fetched(FORK_URL, 1_000_000, Ok(Some(header())), Ok(30))
        .unwrap();
    assert_eq!(block_env, BlockEnvironment { block: Some(header()), gas_price: 30 });

    // Succeeds whatever the provider, returns the cached block env
    assert_eq!(
        environment_cache.get_block_env_by_number(FORK_URL, 1_000_000),
        BlockEnvLookup::Cached(block_env)
    );
}

#[test]
fn test_latest_block_number() {
    let mut cache = EnvironmentCache::default();
    let block_number = 1_000_000;

    assert_eq!(cache.get_latest_block_number(FORK_URL), None);

    cache.set_latest_block_number(FORK_URL, block_number);
    assert_eq!(cache.get_latest_block_number(FORK_URL), Some(block_number));
}

#[test]
fn test_get_fork_info() {
    let mut cache = EnvironmentCache::default();

    // Fails with bad provider
    assert_eq!(
        cache.get_fork_info(FORK_URL, 1_000_000),
        (ChainIdLookup::Fetch, BlockEnvLookup::FetchHeaderAndGasPrice)
    );
    let chain_id = cache.chain_id_fetched(FORK_URL, Err(failure()));
    let block_env =
        cache.header_and_gas_price_fetched(FORK_URL, 1_000_000, Err(failure()), Ok(30));
    assert!(join_fork_info(chain_id, block_env).is_err());

    // Succeeds with good provider, caches the chain id and block env
    let chain_id = cache.chain_id_fetched(FORK_URL, Ok(1));
    let block_env =
        cache.header_and_gas_price_fetched(FORK_URL, 1_000_000, Ok(Some(header())), Ok(30));
    let (chain_id, block_env_0) = join_fork_info(chain_id, block_env).unwrap();
    assert_eq!(chain_id, 1);

    // Succeeds whatever the provider, returns the cached chain id and block env
    assert_eq!(
        cache.get_fork_info(FORK_URL, 1_000_000),
        (ChainIdLookup::Cached(1), BlockEnvLookup::Cached(block_env_0))
    );
}

#[test]
fn block_env_capacity_is_five_hundred() {
    assert_eq!(BLOCK_ENV_CAPACITY, 500);
}

#[test]
fn default_block_environment_is_empty() {
    assert_eq!(BlockEnvironment::default(), BlockEnvironment { block: None, gas_price: 0 });
}

#[test]
fn chain_ids_are_kept_by_source() {
    let mut cache = EnvironmentCache::new();
    assert_eq!(cache.chain_id_fetched("a", Ok(1)), Ok(1));
    assert_eq!(cache.chain_id_fetched("b", Ok(10)), Ok(10));
    assert_eq!(cache.get_chain_id("a"), ChainIdLookup::Cached(1));
    assert_eq!(cache.get_chain_id("b"), ChainIdLookup::Cached(10));
    assert_eq!(cache.get_chain_id("c"), ChainIdLookup::Fetch);
    // A failure for one source touches no other.
    assert_eq!(cache.chain_id_fetched("c", Err(failure())), Err(failure()));
    assert_eq!(cache.get_chain_id("a"), ChainIdLookup::Cached(1));
    assert_eq!(cache.get_latest_block_number("a"), None);
}

#[test]
fn latest_block_can_be_pinned_again() {
    let mut cache = EnvironmentCache::new();
    cache.set_latest_block_number(FORK_URL, 5);
    cache.set_latest_block_number(FORK_URL, 9);
    cache.set_latest_block_number("other", 1);
    assert_eq!(cache.get_latest_block_number(FORK_URL), Some(9));
    assert_eq!(cache.get_latest_block_number("other"), Some(1));
    assert_eq!(cache.get_chain_id(FORK_URL), ChainIdLookup::Fetch);
}

#[test]
fn partial_entry_fetches_the_header_only() {
    let mut cache = EnvironmentCache::new();
    // The provider has a gas price but no header yet.
    let partial = cache.header_and_gas_price_fetched(FORK_URL, 77, Ok(None), Ok(42)).unwrap();
    assert_eq!(partial, BlockEnvironment { block: None, gas_price: 42 });
    assert_eq!(
        cache.get_block_env_by_number(FORK_URL, 77),
        BlockEnvLookup::FetchHeader { gas_price: 42 }
    );
    // A failed header fetch keeps the partial entry.
    assert_eq!(cache.header_fetched(FORK_URL, 77, 42, Err(failure())), Err(failure()));
    assert_eq!(
        cache.get_block_env_by_number(FORK_URL, 77),
        BlockEnvLookup::FetchHeader { gas_price: 42 }
    );
    // The header that arrives is joined to the cached gas price.
    let full = cache.header_fetched(FORK_URL, 77, 42, Ok(Some(header()))).unwrap();
    assert_eq!(full, BlockEnvironment { block: Some(header()), gas_price: 42 });
    assert_eq!(cache.get_block_env_by_number(FORK_URL, 77), BlockEnvLookup::Cached(full));
    // Other blocks and sources are untouched.
    assert_eq!(cache.get_block_env_by_number(FORK_URL, 78), BlockEnvLookup::FetchHeaderAndGasPrice);
    assert_eq!(cache.get_block_env_by_number("other", 77), BlockEnvLookup::FetchHeaderAndGasPrice);
}

#[test]
fn either_failure_fails_the_pair() {
    let mut cache = EnvironmentCache::new();
    let header_failure = Error::Provider("header".to_string());
    let price_failure = Error::Provider("price".to_string());
    assert_eq!(
        cache.header_and_gas_price_fetched(FORK_URL, 1, Err(header_failure.clone()), Ok(1)),
        Err(header_failure.clone())
    );
    assert_eq!(
        cache.header_and_gas_price_fetched(FORK_URL, 1, Ok(None), Err(price_failure.clone())),
        Err(price_failure.clone())
    );
    assert_eq!(
        cache.header_and_gas_price_fetched(
            FORK_URL,
            1,
            Err(header_failure.clone()),
            Err(price_failure)
        ),
        Err(header_failure)
    );
    assert_eq!(cache.get_block_env_by_number(FORK_URL, 1), BlockEnvLookup::FetchHeaderAndGasPrice);
}

#[test]
fn join_fork_info_reports_the_first_failure() {
    let env = BlockEnvironment { block: None, gas_price: 3 };
    let a = Error::Provider("a".to_string());
    let b = Error::Provider("b".to_string());
    assert_eq!(join_fork_info(Ok(1), Ok(env)), Ok((1, env)));
    assert_eq!(join_fork_info(Err(a.clone()), Ok(env)), Err(a.clone()));
    assert_eq!(join_fork_info(Ok(1), Err(b.clone())), Err(b.clone()));
    assert_eq!(join_fork_info(Err(a.clone()), Err(b)), Err(a));
}

#[test]
fn block_number_is_the_pin_or_the_pinned_latest() {
    let mut cache = EnvironmentCache::new();
    let mut unpinned = args();
    unpinned.pin_block = None;
    assert_eq!(args().block_number(&cache), Ok(1_000_000));
    assert_eq!(unpinned.block_number(&cache), Err(Error::UnpinnedLatestBlock));
    cache.set_latest_block_number(FORK_URL, 123);
    assert_eq!(unpinned.block_number(&cache), Ok(123));
    assert_eq!(args().block_number(&cache), Ok(1_000_000));
    cache.set_latest_block_number("elsewhere", 5);
    unpinned.fork_url = "nowhere".to_string();
    assert_eq!(unpinned.block_number(&cache), Err(Error::UnpinnedLatestBlock));
}

#[test]
fn environment_matches_the_header() {
    let block_env = BlockEnvironment { block: Some(header()), gas_price: 30 };
    let step = environment(&args(), 1, &block_env);
    let EnvironmentStep::Built(env, built_from) = step else {
        panic!("no environment was built");
    };
    assert_eq!(built_from, header());
    assert_eq!(env.cfg.chain_id, 1);
    assert_eq!(env.cfg.memory_limit, 1 << 27);
    assert_eq!(env.cfg.limit_contract_code_size, Some(usize::MAX));
    assert!(env.cfg.disable_eip3607);
    assert!(!env.cfg.disable_block_gas_limit);
    assert_eq!(env.block.number, 1_000_000);
    assert_eq!(env.block.timestamp, 1_455_404_053);
    assert_eq!(env.block.coinbase, Address([0x2a; 20]));
    assert_eq!(env.block.difficulty, U256([12_549_332_509_227, 0, 0, 0]));
    assert_eq!(env.block.prevrandao, Some(B256([0x92; 32])));
    assert_eq!(env.block.basefee, 7);
    assert_eq!(env.block.gas_limit, 3_141_592);
    assert_eq!(env.tx.caller, Address([0x18; 20]));
    assert_eq!(env.tx.gas_price, 30);
    assert_eq!(env.tx.chain_id, Some(1));
    assert_eq!(env.tx.gas_limit, 3_141_592);
}

#[test]
fn overrides_win() {
    let mut args = args();
    args.gas_price = Some(99);
    args.override_chain_id = Some(31337);
    args.disable_block_gas_limit = true;
    let block_env = BlockEnvironment { block: Some(header()), gas_price: 30 };
    let EnvironmentStep::Built(env, _) = environment(&args, 1, &block_env) else {
        panic!("no environment was built");
    };
    assert_eq!(env.cfg.chain_id, 31337);
    assert_eq!(env.tx.chain_id, Some(31337));
    assert_eq!(env.tx.gas_price, 99);
    assert!(env.cfg.disable_block_gas_limit);
}

#[test]
fn absent_header_fields_take_their_defaults() {
    let mut header = header();
    header.mix_hash = None;
    header.base_fee_per_gas = None;
    header.gas_limit = (1u128 << 64) + 5;
    let block_env = BlockEnvironment { block: Some(header), gas_price: 30 };
    let EnvironmentStep::Built(env, _) = environment(&args(), 1, &block_env) else {
        panic!("no environment was built");
    };
    assert_eq!(env.block.prevrandao, Some(B256([0; 32])));
    assert_eq!(env.block.basefee, 0);
    assert_eq!(env.block.gas_limit, (1u128 << 64) + 5);
    // The transaction gas limit is the block's, cut to 64 bits.
    assert_eq!(env.tx.gas_limit, 5);
}

#[test]
fn header_without_number_fails() {
    let mut header = header();
    header.number = None;
    let block_env = BlockEnvironment { block: Some(header), gas_price: 30 };
    assert_eq!(
        environment(&args(), 1, &block_env),
        EnvironmentStep::Failed(Error::MissingBlockField)
    );
}

#[test]
fn absent_header_needs_the_head() {
    let block_env = BlockEnvironment { block: None, gas_price: 30 };
    assert_eq!(environment(&args(), 1, &block_env), EnvironmentStep::HeadNeeded);
}

#[test]
fn missing_block_at_or_below_the_head_is_missing_history() {
    assert_eq!(
        missing_block(100, Ok(200)),
        Error::MissingHistoricalBlock { block_number: 100, latest_block: 200 }
    );
    assert_eq!(
        missing_block(200, Ok(200)),
        Error::MissingHistoricalBlock { block_number: 200, latest_block: 200 }
    );
}

#[test]
fn missing_block_ahead_of_the_head_is_not_found() {
    assert_eq!(
        missing_block(201, Ok(200)),
        Error::BlockNotFound { block_number: 201, head: Some(200) }
    );
    assert_eq!(
        missing_block(201, Err(failure())),
        Error::BlockNotFound { block_number: 201, head: None }
    );
}
