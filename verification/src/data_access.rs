//! The reads that an execution performs against remote state, as values.

use vstd::prelude::*;
use crate::primitives::{Address, B256, U256, ChainId, BlockNumber};

verus! {

/// A block reference, relative to a pinned block or absolute.
#[derive(PartialEq, Eq, Hash, Debug, Clone, Copy)]
pub enum StateLookup {
    /// So many blocks after (or, if negative, before) the pinned block.
    RollN(i64),
    /// This block.
    RollAt(u64),
}

impl Default for StateLookup {
    fn default() -> (r: Self)
        ensures
            r == StateLookup::RollN(0),
    {
        StateLookup::RollN(0)
    }
}

impl StateLookup {
    /// The block that the lookup names when `pinned` is the pinned block,
    /// as an unbounded integer.
    pub open spec fn target(self, pinned: BlockNumber) -> int {
        match self {
            StateLookup::RollN(n) => pinned + n,
            StateLookup::RollAt(b) => b as int,
        }
    }

    /// The lookup for an optional fork block: that block if given, else the
    /// pinned block itself.
    pub open spec fn for_fork_block(fork_block_number: Option<BlockNumber>) -> StateLookup {
        match fork_block_number {
            Some(b) => StateLookup::RollAt(b),
            None => StateLookup::RollN(0),
        }
    }

    /// The lookup for an optional fork block number.
    pub fn from_fork_block_number(fork_block_number: Option<BlockNumber>) -> (r: StateLookup)
        ensures
            r == StateLookup::for_fork_block(fork_block_number),
    {
        match fork_block_number {
            Some(b) => StateLookup::RollAt(b),
            None => StateLookup::RollN(0),
        }
    }

    /// Resolves the lookup against the pinned block. `None` when the block
    /// it names is not a block number (below zero or beyond 64 bits).
    pub fn resolve(&self, pinned_block_number: BlockNumber) -> (r: Option<BlockNumber>)
        ensures
            0 <= self.target(pinned_block_number) <= u64::MAX ==> r == Some(
                self.target(pinned_block_number) as u64,
            ),
            !(0 <= self.target(pinned_block_number) <= u64::MAX) ==> r.is_none(),
    {
        match self {
            StateLookup::RollN(n) => {
                let n: i64 = *n;
                if n >= 0 {
                    pinned_block_number.checked_add(n as u64)
                } else {
                    let short: i64 = -(n + 1);
                    let back: u64 = short as u64 + 1;
                    pinned_block_number.checked_sub(back)
                }
            },
            StateLookup::RollAt(b) => Some(*b),
        }
    }
}

/// A read of account state, as the execution engine issues it.
#[derive(PartialEq, Eq, Hash, Debug, Clone, Copy)]
pub enum RevmDbAccess {
    /// A storage slot of an account.
    Storage(Address, U256),
    /// The basic data of an account.
    Basic(Address),
    /// Code, by its hash.
    CodeByHash(B256),
    /// The hash of a block, by the block's number.
    BlockHash(U256),
}

/// What an access does.
#[derive(PartialEq, Eq, Hash, Debug, Clone)]
pub enum AccessType {
    /// A read of account state.
    RevmDbAccess(RevmDbAccess),
    /// The creation of a fork from the source with this url.
    CreateFork(String),
}

/// The mathematical content of an `AccessType`.
pub enum AccessTypeView {
    RevmDbAccess(RevmDbAccess),
    CreateFork(Seq<char>),
}

impl View for AccessType {
    type V = AccessTypeView;

    open spec fn view(&self) -> AccessTypeView {
        match self {
            AccessType::RevmDbAccess(access) => AccessTypeView::RevmDbAccess(*access),
            AccessType::CreateFork(url) => AccessTypeView::CreateFork(url@),
        }
    }
}

impl AccessType {
    /// A copy of the access type.
    pub fn duplicate(&self) -> (r: AccessType)
        ensures
            r@ == self@,
    {
        match self {
            AccessType::RevmDbAccess(access) => AccessType::RevmDbAccess(*access),
            AccessType::CreateFork(url) => AccessType::CreateFork(url.clone()),
        }
    }
}

/// One recorded access: what was done, on which chain, at which block.
#[derive(PartialEq, Eq, Hash, Debug, Clone)]
pub struct Access {
    /// What the access does.
    pub access_type: AccessType,
    /// The chain that the access is for.
    pub chain: ChainId,
    /// The block at which the state is looked up.
    pub state_lookup: StateLookup,
}

/// The mathematical content of an `Access`. Two accesses are the same
/// access where their views are equal.
pub struct AccessView {
    pub access_type: AccessTypeView,
    pub chain: ChainId,
    pub state_lookup: StateLookup,
}

impl View for Access {
    type V = AccessView;

    open spec fn view(&self) -> AccessView {
        AccessView {
            access_type: self.access_type@,
            chain: self.chain,
            state_lookup: self.state_lookup,
        }
    }
}

impl RevmDbAccess {
    /// The access that makes this read on the chain at the lookup.
    pub fn to_access(self, chain: ChainId, state_lookup: StateLookup) -> (r: Access)
        ensures
            r.access_type == AccessType::RevmDbAccess(self),
            r.chain == chain,
            r.state_lookup == state_lookup,
    {
        Access { access_type: AccessType::RevmDbAccess(self), chain, state_lookup }
    }
}

/// The views of a sequence of accesses, in order.
pub open spec fn access_views(accesses: Seq<Access>) -> Seq<AccessView> {
    accesses.map_values(|access: Access| access@)
}

} // verus!
