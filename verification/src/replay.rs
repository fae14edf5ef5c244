//! Replaying recorded accesses against a pinned block, to warm the caches
//! before the accesses are needed.
//!
//! This module plans the reads and judges their outcome. Issuing them is
//! the caller's part: batch by batch, the reads of one batch all at once.

use vstd::prelude::*;
use crate::primitives::{ChainId, BlockNumber};
use crate::data_access::{Access, AccessType, AccessTypeView, AccessView, access_views};
use crate::error::Error;

verus! {

/// The largest number of reads that may be in flight at the same time.
pub const MAX_IN_FLIGHT: usize = 32;

/// One read to issue: what to do, at which block.
#[derive(PartialEq, Eq, Debug, Clone)]
pub struct Prefetch {
    /// What the read does.
    pub access_type: AccessType,
    /// The block that the access's lookup resolved to.
    pub block_number: BlockNumber,
}

/// The mathematical content of a `Prefetch`.
pub struct PrefetchView {
    pub access_type: AccessTypeView,
    pub block_number: BlockNumber,
}

impl View for Prefetch {
    type V = PrefetchView;

    open spec fn view(&self) -> PrefetchView {
        PrefetchView { access_type: self.access_type@, block_number: self.block_number }
    }
}

/// The views of a sequence of reads, in order.
pub open spec fn prefetch_views(reads: Seq<Prefetch>) -> Seq<PrefetchView> {
    reads.map_values(|read: Prefetch| read@)
}

/// The access's lookup names a block number when `pinned` is the pinned
/// block.
pub open spec fn resolvable(access: AccessView, pinned: BlockNumber) -> bool {
    0 <= access.state_lookup.target(pinned) <= u64::MAX
}

/// The read that replays a resolvable access.
pub open spec fn prefetch_of(access: AccessView, pinned: BlockNumber) -> PrefetchView {
    PrefetchView {
        access_type: access.access_type,
        block_number: access.state_lookup.target(pinned) as u64,
    }
}

/// The reads that replay the accesses: one for each resolvable access, in
/// the order of the accesses.
pub open spec fn planned(accesses: Seq<AccessView>, pinned: BlockNumber) -> Seq<PrefetchView>
    decreases accesses.len(),
{
    if accesses.len() == 0 {
        Seq::empty()
    } else if resolvable(accesses.last(), pinned) {
        planned(accesses.drop_last(), pinned).push(prefetch_of(accesses.last(), pinned))
    } else {
        planned(accesses.drop_last(), pinned)
    }
}

/// The read that replays the access against the pinned block, where its
/// lookup resolves.
pub fn resolve_access(access: &Access, pinned_block_number: BlockNumber) -> (r: Option<Prefetch>)
    ensures
        r is Some <==> resolvable(access@, pinned_block_number),
        r is Some ==> r->0@ == prefetch_of(access@, pinned_block_number),
{
    match access.state_lookup.resolve(pinned_block_number) {
        Some(block_number) => Some(
            Prefetch { access_type: access.access_type.duplicate(), block_number },
        ),
        None => None,
    }
}

/// The reads to issue for a batch of recorded accesses, and where.
pub struct PrefetchPlan {
    /// The chain that the reads are for.
    pub chain: ChainId,
    /// The fork source that the reads go to.
    pub fork_source: String,
    /// The reads, in the order of the accesses.
    pub reads: Vec<Prefetch>,
    /// The number of accesses whose lookup did not resolve. They count as
    /// failed.
    pub unresolved: usize,
}

/// Plans the replay of the accesses against the pinned block: a relative
/// lookup resolves to the pinned block plus its offset, an absolute one to
/// its block. An access whose lookup names no block number is counted and
/// left out; it does not stop the others.
pub fn load_accesses(
    accesses: &Vec<Access>,
    chain: ChainId,
    pinned_block_number: BlockNumber,
    fork_source: &str,
) -> (plan: PrefetchPlan)
    ensures
        plan.chain == chain,
        plan.fork_source@ == fork_source@,
        prefetch_views(plan.reads@) == planned(access_views(accesses@), pinned_block_number),
        plan.unresolved + plan.reads.len() == accesses.len(),
{
    let mut reads: Vec<Prefetch> = Vec::new();
    let mut unresolved: usize = 0;
    let mut i: usize = 0;
    while i < accesses.len()
        invariant
            i <= accesses.len(),
            unresolved + reads.len() == i,
            prefetch_views(reads@) == planned(
                access_views(accesses@).take(i as int),
                pinned_block_number,
            ),
        decreases accesses.len() - i,
    {
        let ghost before = access_views(accesses@).take(i as int);
        let ghost now = access_views(accesses@).take(i + 1);
        proof {
            assert(now.drop_last() == before);
            assert(now.last() == accesses@[i as int]@);
        }
        match resolve_access(&accesses[i], pinned_block_number) {
            Some(read) => {
                let ghost held = prefetch_views(reads@);
                reads.push(read);
                assert(prefetch_views(reads@) == held.push(read@));
            },
            None => {
                unresolved = unresolved + 1;
            },
        }
        i = i + 1;
    }
    proof {
        assert(access_views(accesses@).take(i as int) == access_views(accesses@));
    }
    PrefetchPlan { chain, fork_source: fork_source.to_owned(), reads, unresolved }
}

impl PrefetchPlan {
    /// The end of the batch that starts at read number `done`: at most
    /// `MAX_IN_FLIGHT` reads further, and `done` itself once every read has
    /// been issued. The reads from `done` up to the end are issued together;
    /// the next batch starts where this one ends.
    pub fn next_batch(&self, done: usize) -> (end: usize)
        ensures
            done >= self.reads.len() ==> end == done,
            done < self.reads.len() && self.reads.len() - done <= MAX_IN_FLIGHT ==> end
                == self.reads.len(),
            done < self.reads.len() && self.reads.len() - done > MAX_IN_FLIGHT ==> end == done
                + MAX_IN_FLIGHT,
    {
        let len = self.reads.len();
        if done >= len {
            done
        } else if len - done <= MAX_IN_FLIGHT {
            len
        } else {
            done + MAX_IN_FLIGHT
        }
    }

    /// The outcome of the replay, given how many of the issued reads failed.
    /// Failures do not stop a replay; they are counted, the unresolved
    /// accesses with them, and reported together. The count stops at the
    /// largest `usize`.
    pub fn outcome(&self, failed_reads: usize) -> (r: Result<(), Error>)
        ensures
            self.unresolved + failed_reads == 0 ==> r is Ok,
            self.unresolved + failed_reads > 0 ==> r == Err::<(), Error>(
                Error::PrefetchFailed {
                    failed: if self.unresolved + failed_reads <= usize::MAX {
                        (self.unresolved + failed_reads) as usize
                    } else {
                        usize::MAX
                    },
                },
            ),
    {
        let failed = match self.unresolved.checked_add(failed_reads) {
            Some(total) => total,
            None => usize::MAX,
        };
        if failed == 0 {
            Ok(())
        } else {
            Err(Error::PrefetchFailed { failed })
        }
    }
}

} // verus!
