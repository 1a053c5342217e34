//! Identities and the clock reading that every operation is handed.

use vstd::bytes::spec_u128_from_le_bytes;
use vstd::bytes::spec_u128_to_le_bytes;
use vstd::bytes::u128_from_le_bytes;
use vstd::bytes::u128_to_le_bytes;
use vstd::prelude::*;
use vstd::slice::slice_subrange;

verus! {

/// A ledger address: 32 bytes, held as two 128-bit halves so that equality is
/// equality of integers.
#[derive(Clone, Copy, Debug, PartialEq, Eq, Structural)]
pub struct AccountId {
    /// Bytes 0 to 15, little-endian.
    pub lo: u128,
    /// Bytes 16 to 31, little-endian.
    pub hi: u128,
}

impl AccountId {
    /// The all-zero address, which stands for "no recipient configured".
    pub open spec fn spec_unset() -> AccountId {
        AccountId { lo: 0, hi: 0 }
    }

    /// The all-zero address.
    pub fn unset() -> (r: AccountId)
        ensures
            r == Self::spec_unset(),
    {
        AccountId { lo: 0, hi: 0 }
    }

    /// Whether this is the all-zero address.
    pub fn is_unset(&self) -> (r: bool)
        ensures
            r == (*self == Self::spec_unset()),
    {
        self.lo == 0 && self.hi == 0
    }

    /// The address that 32 bytes stand for.
    pub open spec fn spec_from_bytes(bytes: Seq<u8>) -> AccountId {
        AccountId {
            lo: spec_u128_from_le_bytes(bytes.subrange(0, 16)),
            hi: spec_u128_from_le_bytes(bytes.subrange(16, 32)),
        }
    }

    /// The 32 bytes of the address.
    pub open spec fn spec_to_bytes(self) -> Seq<u8> {
        spec_u128_to_le_bytes(self.lo) + spec_u128_to_le_bytes(self.hi)
    }

    /// Reads an address from its 32 bytes; `None` for any other length.
    pub fn from_bytes(bytes: &[u8]) -> (r: Option<AccountId>)
        ensures
            r == (if bytes@.len() == 32 {
                Some(Self::spec_from_bytes(bytes@))
            } else {
                None
            }),
    {
        if bytes.len() != 32 {
            return None;
        }
        let lo = u128_from_le_bytes(slice_subrange(bytes, 0, 16));
        let hi = u128_from_le_bytes(slice_subrange(bytes, 16, 32));
        Some(AccountId { lo, hi })
    }

    /// Writes the address as its 32 bytes.
    pub fn to_bytes(&self) -> (r: Vec<u8>)
        ensures
            r@ == self.spec_to_bytes(),
            r@.len() == 32,
    {
        let mut out = u128_to_le_bytes(self.lo);
        let mut upper = u128_to_le_bytes(self.hi);
        out.append(&mut upper);
        out
    }

    /// Whether two addresses are the same.
    pub fn same(&self, other: &AccountId) -> (r: bool)
        ensures
            r == (*self == *other),
    {
        self.lo == other.lo && self.hi == other.hi
    }
}

/// One reading of the ledger's clock, taken once per operation.
#[derive(Clone, Copy, Debug, PartialEq, Eq, Structural)]
pub struct Clock {
    /// Current slot (block height).
    pub slot: u64,
    /// Current wall-clock time, seconds since the epoch.
    pub unix_timestamp: i64,
}

} // verus!
