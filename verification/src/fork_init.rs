//! Building the execution environment of a fork from what the environment
//! cache and the provider returned.

use vstd::prelude::*;
use crate::primitives::{Address, B256, U256, ChainId, BlockNumber};
use crate::environment_cache::{BlockEnvironment, BlockHeader, EnvironmentCache};
use crate::error::Error;

verus! {

/// What the caller asks of the environment of a fork.
#[derive(Clone, Debug)]
pub struct EnvironmentArgs {
    /// The fork source.
    pub fork_url: String,
    /// The memory limit of the execution environment.
    pub memory_limit: u64,
    /// A gas price to use in place of the one that the fork quotes.
    pub gas_price: Option<u128>,
    /// A chain id to use in place of the one that the fork reports.
    pub override_chain_id: Option<ChainId>,
    /// The block to fork at; the block pinned as "latest" where absent.
    pub pin_block: Option<BlockNumber>,
    /// The sender of transactions.
    pub origin: Address,
    /// Whether the block gas limit is left unenforced.
    pub disable_block_gas_limit: bool,
}

/// The configuration part of an execution environment.
#[derive(Clone, Copy, Debug, PartialEq, Eq)]
pub struct CfgEnvironment {
    pub chain_id: ChainId,
    pub memory_limit: u64,
    /// The largest contract code accepted.
    pub limit_contract_code_size: Option<usize>,
    /// Whether senders with deployed code are accepted.
    pub disable_eip3607: bool,
    pub disable_block_gas_limit: bool,
}

/// The block part of an execution environment.
#[derive(Clone, Copy, Debug, PartialEq, Eq)]
pub struct BlockContext {
    pub number: BlockNumber,
    pub timestamp: u64,
    pub coinbase: Address,
    pub difficulty: U256,
    pub prevrandao: Option<B256>,
    pub basefee: u128,
    pub gas_limit: u128,
}

/// The transaction defaults of an execution environment.
#[derive(Clone, Copy, Debug, PartialEq, Eq)]
pub struct TxDefaults {
    pub caller: Address,
    pub gas_price: u128,
    pub chain_id: Option<ChainId>,
    pub gas_limit: u64,
}

/// An execution environment: configuration, block context and transaction
/// defaults.
#[derive(Clone, Copy, Debug, PartialEq, Eq)]
pub struct ExecutionEnvironment {
    pub cfg: CfgEnvironment,
    pub block: BlockContext,
    pub tx: TxDefaults,
}

/// The value of an option, or `default` where it is absent.
pub open spec fn or_else<T>(value: Option<T>, default: T) -> T {
    match value {
        Some(v) => v,
        None => default,
    }
}

/// The environment made for `args` from the chain id and gas price of the
/// fork and a header that has its number.
///
/// The chain id and the gas price are the overrides where given, else the
/// fork's. The block fields are the header's; an absent mix hash is the zero
/// hash, an absent base fee zero. Contract code size is unbounded and senders
/// with code are accepted. The transaction gas limit is the block's, cut to
/// 64 bits.
pub open spec fn composed(
    args: EnvironmentArgs,
    rpc_chain_id: ChainId,
    fork_gas_price: u128,
    header: BlockHeader,
) -> ExecutionEnvironment {
    ExecutionEnvironment {
        cfg: CfgEnvironment {
            chain_id: or_else(args.override_chain_id, rpc_chain_id),
            memory_limit: args.memory_limit,
            limit_contract_code_size: Some(usize::MAX),
            disable_eip3607: true,
            disable_block_gas_limit: args.disable_block_gas_limit,
        },
        block: BlockContext {
            number: header.number->0,
            timestamp: header.timestamp,
            coinbase: header.miner,
            difficulty: header.difficulty,
            prevrandao: Some(or_else(header.mix_hash, B256::zero_spec())),
            basefee: or_else(header.base_fee_per_gas, 0u128),
            gas_limit: header.gas_limit,
        },
        tx: TxDefaults {
            caller: args.origin,
            gas_price: or_else(args.gas_price, fork_gas_price),
            chain_id: Some(or_else(args.override_chain_id, rpc_chain_id)),
            gas_limit: (header.gas_limit % 0x1_0000_0000_0000_0000) as u64,
        },
    }
}

/// What building an environment comes to once chain id and block
/// environment are there.
#[derive(Clone, Debug, PartialEq, Eq)]
pub enum EnvironmentStep {
    /// The environment, and the header it was built from.
    Built(ExecutionEnvironment, BlockHeader),
    /// The header lacks a field; the build failed.
    Failed(Error),
    /// The provider had no header for the block. Ask it for its latest
    /// block number and hand the answer to `missing_block`.
    HeadNeeded,
}

impl EnvironmentArgs {
    /// The block to fork at: the block asked for, else the block that
    /// "latest" was pinned to for the source. With neither the build cannot
    /// start.
    pub fn block_number(&self, env_cache: &EnvironmentCache) -> (r: Result<BlockNumber, Error>)
        ensures
            self.pin_block is Some ==> r == Ok::<BlockNumber, Error>(self.pin_block->0),
            self.pin_block is None && env_cache@.latest_blocks.contains_key(self.fork_url@) ==> r
                == Ok::<BlockNumber, Error>(env_cache@.latest_blocks[self.fork_url@]),
            self.pin_block is None && !env_cache@.latest_blocks.contains_key(self.fork_url@) ==> r
                == Err::<BlockNumber, Error>(Error::UnpinnedLatestBlock),
    {
        match self.pin_block {
            Some(pin_block) => Ok(pin_block),
            None => match env_cache.get_latest_block_number(self.fork_url.as_str()) {
                Some(latest) => Ok(latest),
                None => Err(Error::UnpinnedLatestBlock),
            },
        }
    }
}

/// Builds the environment for `args` from the chain id that the fork
/// reports and the environment of the block forked at.
pub fn environment(args: &EnvironmentArgs, rpc_chain_id: ChainId, block_env: &BlockEnvironment)
    -> (r: EnvironmentStep)
    ensures
        block_env.block is None ==> r == EnvironmentStep::HeadNeeded,
        block_env.block is Some && block_env.block->0.number is None ==> r
            == EnvironmentStep::Failed(Error::MissingBlockField),
        block_env.block is Some && block_env.block->0.number is Some ==> r
            == EnvironmentStep::Built(
            composed(*args, rpc_chain_id, block_env.gas_price, block_env.block->0),
            block_env.block->0,
        ),
{
    let header = match block_env.block {
        Some(header) => header,
        None => { return EnvironmentStep::HeadNeeded; },
    };
    let number = match header.number {
        Some(number) => number,
        None => { return EnvironmentStep::Failed(Error::MissingBlockField); },
    };
    let chain_id = match args.override_chain_id {
        Some(id) => id,
        None => rpc_chain_id,
    };
    let cfg = CfgEnvironment {
        chain_id,
        memory_limit: args.memory_limit,
        limit_contract_code_size: Some(usize::MAX),
        disable_eip3607: true,
        disable_block_gas_limit: args.disable_block_gas_limit,
    };
    let block = BlockContext {
        number,
        timestamp: header.timestamp,
        coinbase: header.miner,
        difficulty: header.difficulty,
        prevrandao: Some(
            match header.mix_hash {
                Some(hash) => hash,
                None => B256::zero(),
            },
        ),
        basefee: match header.base_fee_per_gas {
            Some(fee) => fee,
            None => 0,
        },
        gas_limit: header.gas_limit,
    };
    let gas_limit: u64 = (header.gas_limit % 0x1_0000_0000_0000_0000) as u64;
    let tx = TxDefaults {
        caller: args.origin,
        gas_price: match args.gas_price {
            Some(price) => price,
            None => block_env.gas_price,
        },
        chain_id: Some(chain_id),
        gas_limit,
    };
    EnvironmentStep::Built(ExecutionEnvironment { cfg, block, tx }, header)
}

/// Why no environment can be built for a block of which the provider has no
/// header, given the provider's latest block number or the failure to read
/// it. A block at or below the latest is missing history: the node is no
/// archive node.
pub fn missing_block(block_number: BlockNumber, head: Result<BlockNumber, Error>) -> (r: Error)
    ensures
        head is Ok && block_number <= head->Ok_0 ==> r == (Error::MissingHistoricalBlock {
            block_number,
            latest_block: head->Ok_0,
        }),
        head is Ok && block_number > head->Ok_0 ==> r == (Error::BlockNotFound {
            block_number,
            head: Some(head->Ok_0),
        }),
        head is Err ==> r == (Error::BlockNotFound { block_number, head: None }),
{
    match head {
        Ok(latest_block) => {
            if block_number <= latest_block {
                Error::MissingHistoricalBlock { block_number, latest_block }
            } else {
                Error::BlockNotFound { block_number, head: Some(latest_block) }
            }
        },
        Err(_) => Error::BlockNotFound { block_number, head: None },
    }
}

/// An environment built from a header takes its block number, timestamp,
/// gas limit and base fee from that header, and its gas price from the
/// override where one is given, else from the fork.
pub proof fn law_environment_matches_header(
    args: EnvironmentArgs,
    rpc_chain_id: ChainId,
    fork_gas_price: u128,
    header: BlockHeader,
)
    requires
        header.number is Some,
    ensures
        composed(args, rpc_chain_id, fork_gas_price, header).block.number == header.number->0,
        composed(args, rpc_chain_id, fork_gas_price, header).block.timestamp == header.timestamp,
        composed(args, rpc_chain_id, fork_gas_price, header).block.gas_limit == header.gas_limit,
        header.base_fee_per_gas is Some ==> composed(
            args,
            rpc_chain_id,
            fork_gas_price,
            header,
        ).block.basefee == header.base_fee_per_gas->0,
        header.base_fee_per_gas is None ==> composed(
            args,
            rpc_chain_id,
            fork_gas_price,
            header,
        ).block.basefee == 0,
        args.gas_price is Some ==> composed(args, rpc_chain_id, fork_gas_price, header).tx.gas_price
            == args.gas_price->0,
        args.gas_price is None ==> composed(args, rpc_chain_id, fork_gas_price, header).tx.gas_price
            == fork_gas_price,
{
}

} // verus!
