//! Core value types of the reward workflow: principals, hashes, balances,
//! and the contribution record that approval creates and settlement consumes.

use vstd::prelude::*;

verus! {

/// A fixed-width hash value, e.g. the digest of a contributor's off-chain
/// account id or of the workflow definition file.
pub type HashValue = [u8; 32];

/// An opaque address-like identifier for an account that can issue calls
/// and receive value.
pub type AccountId = [u8; 32];

/// A compressed ECDSA public key, as used by the run attestation verifier.
pub type PublicKey = [u8; 33];

/// The unit of value paid out by claim settlement.
pub type Balance = u128;

/// An approved unit of work, eligible for exactly one reward payout.
#[derive(Debug, Copy, Clone, PartialEq, Eq)]
pub struct Contribution {
    /// The unique contribution id (e.g. an issue number).
    pub id: u64,
    /// The principal allowed to claim the reward.
    pub contributor: AccountId,
    /// Whether the reward has been paid out; flips false to true at most once.
    pub is_reward_claimed: bool,
}

/// Compares two 32-byte values for equality, byte by byte.
pub fn bytes32_eq(a: &[u8; 32], b: &[u8; 32]) -> (r: bool)
    ensures
        r == (a@ == b@),
{
    let mut i: usize = 0;
    while i < 32
        invariant
            i <= 32,
            forall|k: int| 0 <= k < i ==> a@[k] == b@[k],
        decreases 32 - i,
    {
        if a[i] != b[i] {
            return false;
        }
        i += 1;
    }
    proof {
        assert(a@ =~= b@);
    }
    true
}

/// Compares two 33-byte values for equality, byte by byte.
pub fn bytes33_eq(a: &[u8; 33], b: &[u8; 33]) -> (r: bool)
    ensures
        r == (a@ == b@),
{
    let mut i: usize = 0;
    while i < 33
        invariant
            i <= 33,
            forall|k: int| 0 <= k < i ==> a@[k] == b@[k],
        decreases 33 - i,
    {
        if a[i] != b[i] {
            return false;
        }
        i += 1;
    }
    proof {
        assert(a@ =~= b@);
    }
    true
}

} // verus!
