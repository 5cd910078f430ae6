//! The stake-lock acquisition protocol: collection-membership verification,
//! capacity check, record creation, delegation grant and freeze, as one
//! atomic unit.
//!
//! A lock hands transfer rights over exactly one unit of a unique asset to
//! the new stake record's derived authority and freezes the asset in place,
//! so the owner cannot move it until an external collaborator unstakes it.

use vstd::prelude::*;
use crate::ProtocolError;
use crate::authority::derived_address;
use crate::authority::config_seeds;
use crate::authority::found_authority;
use crate::authority::stake_seeds;
use crate::authority::user_seeds;
use crate::authority::with_bump;
use crate::authority::find_stake_authority;
use crate::authority::verify_config_address;
use crate::authority::verify_user_address;
use crate::records::AssetMetadata;
use crate::records::Id;
use crate::records::StakeConfig;
use crate::records::StakeRecord;
use crate::records::TokenAccount;
use crate::records::UserAccount;
use crate::records::id_eq;

verus! {

/// The records and identities a lock acquisition references. `stake_record`
/// is `None` where no record exists yet at the derived address.
#[derive(Clone, Copy, PartialEq, Eq)]
pub struct StakeAccounts {
    /// The staking party.
    pub user: Id,
    /// The asset to lock.
    pub mint: Id,
    /// The collection the asset must be a verified member of.
    pub collection_mint: Id,
    /// The user's holding account for the asset.
    pub mint_ata: TokenAccount,
    /// The asset's metadata, carrying the collection attestation.
    pub metadata: AssetMetadata,
    /// The address the policy record was loaded from.
    pub config_addr: Id,
    /// The staking policy.
    pub config: StakeConfig,
    /// The record found at the stake record's derived address, if any.
    pub stake_record: Option<StakeRecord>,
    /// The address the user aggregate was loaded from.
    pub user_addr: Id,
    /// The user's aggregate of active stakes.
    pub user_account: UserAccount,
}

/// The named predicates of the lock validator, in evaluation order.
#[derive(Clone, Copy, Debug, PartialEq, Eq, Structural)]
pub enum StakeCheck {
    /// The asset's metadata names a collection at all.
    CollectionPresent,
    /// The named collection is the expected one.
    CollectionMatch,
    /// The membership is marked verified by the collection's authority.
    CollectionVerified,
    /// The policy record's address re-derives from its stored bump.
    ConfigDerivation,
    /// The user aggregate's address re-derives from the user and its bump.
    UserDerivation,
    /// The holding account holds the asset being locked.
    AtaMint,
    /// The holding account belongs to the staking party.
    AtaOwner,
    /// The holding account is not already frozen, so a freeze can succeed.
    NotFrozen,
}

/// The collection-membership attestation: a collection is named, it is the
/// expected one, and the membership is marked verified.
pub open spec fn membership_ok(a: StakeAccounts) -> bool {
    match a.metadata.collection {
        Some(c) => c.key@ == a.collection_mint@ && c.verified,
        None => false,
    }
}

/// The first failing predicate of the lock validator, or `None` when every
/// structural relationship holds.
pub open spec fn stake_validation_label(a: StakeAccounts, program: Seq<u8>) -> Option<
    StakeCheck,
> {
    match a.metadata.collection {
        None => Some(StakeCheck::CollectionPresent),
        Some(c) => if c.key@ != a.collection_mint@ {
            Some(StakeCheck::CollectionMatch)
        } else if !c.verified {
            Some(StakeCheck::CollectionVerified)
        } else if derived_address(with_bump(config_seeds(), a.config.bump), program) != Some(
            a.config_addr@,
        ) {
            Some(StakeCheck::ConfigDerivation)
        } else if derived_address(with_bump(user_seeds(a.user@), a.user_account.bump), program)
            != Some(a.user_addr@) {
            Some(StakeCheck::UserDerivation)
        } else if a.mint_ata.mint@ != a.mint@ {
            Some(StakeCheck::AtaMint)
        } else if a.mint_ata.authority@ != a.user@ {
            Some(StakeCheck::AtaOwner)
        } else if a.mint_ata.frozen {
            Some(StakeCheck::NotFrozen)
        } else {
            None
        },
    }
}

/// The error a failing validator label surfaces as: a false membership
/// attestation has its own label; everything else is a constraint violation.
pub open spec fn stake_label_error(l: StakeCheck) -> ProtocolError {
    match l {
        StakeCheck::CollectionPresent => ProtocolError::UnverifiedMembership,
        StakeCheck::CollectionMatch => ProtocolError::UnverifiedMembership,
        StakeCheck::CollectionVerified => ProtocolError::UnverifiedMembership,
        _ => ProtocolError::ConstraintViolation,
    }
}

/// What a lock acquisition reports for these records: a labeled failure, or
/// `None` when it succeeds. After the validator come, in order: the record
/// derivation, the creation collision, and the capacity check.
pub open spec fn stake_error(a: StakeAccounts, program: Seq<u8>) -> Option<ProtocolError> {
    match stake_validation_label(a, program) {
        Some(l) => Some(stake_label_error(l)),
        None => if found_authority(stake_seeds(a.mint@, a.config_addr@), program) is None {
            Some(ProtocolError::ConstraintViolation)
        } else if a.stake_record is Some {
            Some(ProtocolError::DuplicateRecord)
        } else if a.user_account.amount >= a.config.max_stake {
            Some(ProtocolError::CapacityExceeded)
        } else {
            None
        },
    }
}

/// The records after a successful lock acquisition: a stake record exists at
/// the derived address with the observed time and the found bump, the asset's
/// delegate is the record's derived authority for exactly one unit, the
/// asset is frozen, the aggregate count is one higher, and nothing else
/// changed.
pub open spec fn stake_ok(a: StakeAccounts, program: Seq<u8>, now: i64, post: StakeAccounts)
    -> bool {
    match found_authority(stake_seeds(a.mint@, a.config_addr@), program) {
        None => false,
        Some(auth) => {
            &&& derived_address(with_bump(stake_seeds(a.mint@, a.config_addr@), auth.1), program)
                == Some(auth.0)
            &&& post.stake_record matches Some(sr) && sr.owner@ == a.user@ && sr.mint@ == a.mint@
                && sr.staked_at == now && sr.bump == auth.1
            &&& post.mint_ata.mint == a.mint_ata.mint
            &&& post.mint_ata.authority == a.mint_ata.authority
            &&& post.mint_ata.amount == a.mint_ata.amount
            &&& post.mint_ata.delegate matches Some(d) && d@ == auth.0
            &&& post.mint_ata.delegated_amount == 1
            &&& post.mint_ata.frozen
            &&& post.user_account.amount == a.user_account.amount + 1
            &&& post.user_account.bump == a.user_account.bump
            &&& post.user == a.user
            &&& post.mint == a.mint
            &&& post.collection_mint == a.collection_mint
            &&& post.metadata == a.metadata
            &&& post.config_addr == a.config_addr
            &&& post.config == a.config
            &&& post.user_addr == a.user_addr
        },
    }
}

/// Runs the lock validator: membership attestation, re-derivations and
/// holding-account checks, in full before any mutation, reporting the first
/// failing predicate's label.
pub fn validate_stake(a: &StakeAccounts, program: &Id) -> (r: Result<(), StakeCheck>)
    ensures
        (match stake_validation_label(*a, program@) {
            None => r == Ok::<(), StakeCheck>(()),
            Some(l) => r == Err::<(), StakeCheck>(l),
        }),
{
    let c = match a.metadata.collection {
        None => {
            return Err(StakeCheck::CollectionPresent);
        },
        Some(c) => c,
    };
    if !id_eq(&c.key, &a.collection_mint) {
        return Err(StakeCheck::CollectionMatch);
    }
    if !c.verified {
        return Err(StakeCheck::CollectionVerified);
    }
    if !verify_config_address(&a.config_addr, a.config.bump, program) {
        return Err(StakeCheck::ConfigDerivation);
    }
    if !verify_user_address(&a.user_addr, &a.user, a.user_account.bump, program) {
        return Err(StakeCheck::UserDerivation);
    }
    if !id_eq(&a.mint_ata.mint, &a.mint) {
        return Err(StakeCheck::AtaMint);
    }
    if !id_eq(&a.mint_ata.authority, &a.user) {
        return Err(StakeCheck::AtaOwner);
    }
    if a.mint_ata.frozen {
        return Err(StakeCheck::NotFrozen);
    }
    Ok(())
}

/// Acquires a stake lock as one atomic unit: creates the stake record at its
/// derived address with the observed ledger time `now`, grants that record's
/// derived authority delegate rights over exactly one unit, freezes the
/// asset, and increments the owner's aggregate count. Any failure leaves
/// every record unchanged.
pub fn stake(a: &mut StakeAccounts, program: &Id, now: i64) -> (r: Result<(), ProtocolError>)
    ensures
        (match stake_error(*old(a), program@) {
            Some(e) => r == Err::<(), ProtocolError>(e) && *final(a) == *old(a),
            None => r == Ok::<(), ProtocolError>(()) && stake_ok(*old(a), program@, now, *final(a)),
        }),
{
    match validate_stake(a, program) {
        Err(l) => {
            return Err(match l {
                StakeCheck::CollectionPresent => ProtocolError::UnverifiedMembership,
                StakeCheck::CollectionMatch => ProtocolError::UnverifiedMembership,
                StakeCheck::CollectionVerified => ProtocolError::UnverifiedMembership,
                _ => ProtocolError::ConstraintViolation,
            });
        },
        Ok(()) => {},
    }
    let auth = match find_stake_authority(&a.mint, &a.config_addr, program) {
        None => {
            return Err(ProtocolError::ConstraintViolation);
        },
        Some(p) => p,
    };
    if a.stake_record.is_some() {
        return Err(ProtocolError::DuplicateRecord);
    }
    if a.user_account.amount >= a.config.max_stake {
        return Err(ProtocolError::CapacityExceeded);
    }
    a.stake_record = Some(
        StakeRecord { owner: a.user, mint: a.mint, staked_at: now, bump: auth.1 },
    );
    a.mint_ata.delegate = Some(auth.0);
    a.mint_ata.delegated_amount = 1;
    a.mint_ata.frozen = true;
    a.user_account.amount = a.user_account.amount + 1;
    Ok(())
}

/// Law: a successful lock acquisition raises the aggregate count by exactly
/// one, leaves a stake record carrying the observed time, and leaves the
/// asset frozen with the new record's derived authority as its delegate.
pub proof fn lemma_stake_success_locks(
    a: StakeAccounts,
    program: Seq<u8>,
    now: i64,
    post: StakeAccounts,
)
    requires
        stake_error(a, program) is None,
        stake_ok(a, program, now, post),
    ensures
        post.user_account.amount == a.user_account.amount + 1,
        post.stake_record matches Some(sr) && sr.staked_at == now && sr.owner@ == a.user@
            && sr.mint@ == a.mint@,
        post.mint_ata.frozen,
        (match (post.mint_ata.delegate, found_authority(
            stake_seeds(a.mint@, a.config_addr@),
            program,
        )) {
            (Some(d), Some(auth)) => d@ == auth.0 && derived_address(
                with_bump(stake_seeds(a.mint@, a.config_addr@), auth.1),
                program,
            ) == Some(auth.0),
            _ => false,
        }),
{
    assert(found_authority(stake_seeds(a.mint@, a.config_addr@), program) is Some);
}

/// Law: a lock attempted at the capacity cap reports the exceeded capacity
/// (and, by `stake`'s contract, changes nothing).
pub proof fn lemma_stake_capacity_exceeded(a: StakeAccounts, program: Seq<u8>)
    requires
        stake_validation_label(a, program) is None,
        found_authority(stake_seeds(a.mint@, a.config_addr@), program) is Some,
        a.stake_record is None,
        a.user_account.amount == a.config.max_stake,
    ensures
        stake_error(a, program) == Some(ProtocolError::CapacityExceeded),
{
}

/// Law: a false membership attestation — no collection named, the wrong
/// collection, or an unverified membership — reports exactly that (and, by
/// `stake`'s contract, changes nothing).
pub proof fn lemma_stake_unverified_membership(a: StakeAccounts, program: Seq<u8>)
    requires
        !membership_ok(a),
    ensures
        stake_error(a, program) == Some(ProtocolError::UnverifiedMembership),
{
}

/// Law: at most one active lock per asset and policy. Where a stake record
/// already exists at the derived address, the creation collides and the
/// acquisition reports the duplicate.
pub proof fn lemma_stake_duplicate(a: StakeAccounts, program: Seq<u8>)
    requires
        stake_validation_label(a, program) is None,
        found_authority(stake_seeds(a.mint@, a.config_addr@), program) is Some,
        a.stake_record is Some,
    ensures
        stake_error(a, program) == Some(ProtocolError::DuplicateRecord),
{
}

} // verus!
