//! Plain value types for account identifiers, hashes and 256-bit words.

use vstd::prelude::*;

verus! {

/// Numeric identifier of a chain.
pub type ChainId = u64;

/// Number of a block.
pub type BlockNumber = u64;

/// A 20-byte account identifier.
#[derive(Clone, Copy, Debug, PartialEq, Eq, Hash)]
pub struct Address(pub [u8; 20]);

/// A 32-byte hash.
#[derive(Clone, Copy, Debug, PartialEq, Eq, Hash)]
pub struct B256(pub [u8; 32]);

/// A 256-bit unsigned integer, as four 64-bit limbs, least significant first.
#[derive(Clone, Copy, Debug, PartialEq, Eq, Hash)]
pub struct U256(pub [u64; 4]);

impl B256 {
    /// The hash whose bytes are all zero.
    pub open spec fn zero_spec() -> B256 {
        B256(vstd::array::spec_array_fill_for_copy_type::<u8, 32>(0u8))
    }

    /// The hash whose bytes are all zero.
    pub fn zero() -> (r: B256)
        ensures
            r == B256::zero_spec(),
            forall|i: int| 0 <= i < 32 ==> r.0[i] == 0u8,
    {
        broadcast use vstd::array::axiom_spec_array_fill_for_copy_type;

        B256([0u8; 32])
    }
}

impl U256 {
    /// The mathematical value of the word.
    pub open spec fn value(self) -> nat {
        (self.0[0] as nat) + (self.0[1] as nat) * 0x1_0000_0000_0000_0000
            + (self.0[2] as nat) * 0x1_0000_0000_0000_0000 * 0x1_0000_0000_0000_0000
            + (self.0[3] as nat) * 0x1_0000_0000_0000_0000 * 0x1_0000_0000_0000_0000
            * 0x1_0000_0000_0000_0000
    }

    /// The word with value zero.
    pub fn zero() -> (r: U256)
        ensures
            r.value() == 0,
            r == U256::from_u64_spec(0),
    {
        U256([0u64, 0u64, 0u64, 0u64])
    }

    /// The word that `from_u64` returns for `x`.
    pub open spec fn from_u64_spec(x: u64) -> U256 {
        U256([x, 0u64, 0u64, 0u64])
    }

    /// Widens a 64-bit integer.
    pub fn from_u64(x: u64) -> (r: U256)
        ensures
            r == U256::from_u64_spec(x),
            r.value() == x,
    {
        U256([x, 0u64, 0u64, 0u64])
    }
}

} // verus!
