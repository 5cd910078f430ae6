//! Plain models of the persisted records the two protocols read and mutate.
//!
//! Identities (parties, asset types, derived addresses) are 32-byte values.
//! A token account is modeled by the fields the protocols depend on: its
//! asset type, its transfer authority, its balance, its delegate and its
//! frozen flag.

use vstd::prelude::*;

verus! {

/// A 32-byte identity: a party, an asset type, or a derived address.
pub type Id = [u8; 32];

/// Compares two identities byte for byte.
pub fn id_eq(x: &Id, y: &Id) -> (r: bool)
    ensures
        r == (x@ == y@),
{
    let mut i: usize = 0;
    while i < 32
        invariant
            i <= 32,
            forall|j: int| 0 <= j < i ==> x@[j] == y@[j],
        decreases 32 - i,
    {
        if x[i] != y[i] {
            return false;
        }
        i += 1;
    }
    proof {
        assert(x@ =~= y@);
    }
    true
}

/// A holding account for one asset type. The vault and every source or
/// destination of a transfer is one of these.
#[derive(Clone, Copy, PartialEq, Eq)]
pub struct TokenAccount {
    /// The asset type this account holds.
    pub mint: Id,
    /// The party (or derived authority) allowed to move the balance.
    pub authority: Id,
    /// Current balance, in base units.
    pub amount: u64,
    /// A second party granted limited transfer rights, if any.
    pub delegate: Option<Id>,
    /// How many base units the delegate may move.
    pub delegated_amount: u64,
    /// Whether the account is currently immovable by its authority.
    pub frozen: bool,
}

/// One open escrow offer: asset A deposited in a vault, asset B demanded.
#[derive(Clone, Copy, PartialEq, Eq)]
pub struct EscrowRecord {
    /// The offering party.
    pub maker: Id,
    /// The offered asset type (held by the vault).
    pub mint_a: Id,
    /// The requested asset type.
    pub mint_b: Id,
    /// 64-bit disambiguator: one maker may keep several escrows open.
    pub seed: u64,
    /// How much of asset B the maker demands.
    pub receive_amount: u64,
    /// The derivation byte completing this record's own address derivation.
    pub bump: u8,
}

/// One active stake lock over a unique asset.
#[derive(Clone, Copy, PartialEq, Eq)]
pub struct StakeRecord {
    /// The staking party.
    pub owner: Id,
    /// The locked asset's identity.
    pub mint: Id,
    /// Ledger time at which the lock was acquired, in seconds.
    pub staked_at: i64,
    /// The derivation byte completing this record's address derivation.
    pub bump: u8,
}

/// Per-owner aggregate: how many stakes are currently active.
#[derive(Clone, Copy, PartialEq, Eq)]
pub struct UserAccount {
    /// Running count of active stakes.
    pub amount: u32,
    /// The derivation byte of this record's own address.
    pub bump: u8,
}

/// Singleton staking policy, created once by an external initializer and
/// read-only here.
#[derive(Clone, Copy, PartialEq, Eq)]
pub struct StakeConfig {
    /// Maximum number of concurrent stakes per owner.
    pub max_stake: u32,
    /// The derivation byte of the policy record's own address.
    pub bump: u8,
}

/// The collection attestation carried by an asset's metadata.
#[derive(Clone, Copy, PartialEq, Eq)]
pub struct CollectionInfo {
    /// The collection's identity.
    pub key: Id,
    /// Whether membership has been verified by the collection's authority.
    pub verified: bool,
}

/// The slice of an asset's metadata the stake protocol reads.
#[derive(Clone, Copy, PartialEq, Eq)]
pub struct AssetMetadata {
    /// The collection the asset claims membership in, if any.
    pub collection: Option<CollectionInfo>,
}

} // verus!
