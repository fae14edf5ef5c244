//! The failures this crate reports.

use vstd::prelude::*;

verus! {

/// Why an operation of this crate failed.
#[derive(Clone, Debug, PartialEq, Eq)]
pub enum Error {
    /// The remote provider reported a transport or RPC failure; the text is
    /// the provider's own message. Never cached.
    Provider(String),
    /// The provider has no header for a block at or below its own head:
    /// the node lacks historical state.
    MissingHistoricalBlock { block_number: u64, latest_block: u64 },
    /// The provider has no header for the block, which is ahead of its head
    /// or whose head could not be read.
    BlockNotFound { block_number: u64, head: Option<u64> },
    /// A header came without a field that the environment needs.
    MissingBlockField,
    /// No block was pinned and none was given.
    UnpinnedLatestBlock,
    /// Some prefetch reads failed; the count says how many.
    PrefetchFailed { failed: usize },
}

} // verus!
