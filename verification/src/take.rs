//! The escrow redemption protocol: two asset transfers plus custodial
//! account closure, as one atomic unit.
//!
//! Before anything moves, every structural relationship among the referenced
//! records is checked by a pipeline of named predicates; the first failing
//! predicate aborts the whole operation with zero mutation.

use vstd::prelude::*;
use crate::ProtocolError;
use crate::authority::derived_address;
use crate::authority::escrow_seeds;
use crate::authority::with_bump;
use crate::authority::verify_escrow_authority;
use crate::records::EscrowRecord;
use crate::records::Id;
use crate::records::TokenAccount;
use crate::records::id_eq;

verus! {

/// The records and identities a redemption references. `escrow` and `vault`
/// are `None` where no record exists at the expected address (closed, or
/// never created).
#[derive(Clone, Copy, PartialEq, Eq)]
pub struct TakeAccounts {
    /// The redeeming party.
    pub taker: Id,
    /// The offering party, as supplied by the caller.
    pub maker: Id,
    /// The offered asset type, as supplied by the caller.
    pub mint_a: Id,
    /// The requested asset type, as supplied by the caller.
    pub mint_b: Id,
    /// The address the escrow record is expected to live at.
    pub escrow_addr: Id,
    /// The escrow record found at that address, if it still exists.
    pub escrow: Option<EscrowRecord>,
    /// The custodial holding account for asset A, if it still exists.
    pub vault: Option<TokenAccount>,
    /// The taker's receiving account for asset A.
    pub taker_mint_a_ata: TokenAccount,
    /// The taker's source account for asset B.
    pub taker_mint_b_ata: TokenAccount,
    /// The maker's receiving account. Its derivation is keyed to the offered
    /// asset's type; whether that should instead be the requested type, and
    /// which party funds its storage, is left to the creating collaborator.
    pub maker_mint_b_ata: TokenAccount,
}

/// The named predicates of the redemption validator, in evaluation order.
#[derive(Clone, Copy, Debug, PartialEq, Eq, Structural)]
pub enum TakeCheck {
    /// An escrow record exists at the expected address.
    EscrowPresent,
    /// The supplied maker is the record's maker.
    MakerMatch,
    /// The supplied offered-asset identity is the record's.
    MintAMatch,
    /// The supplied requested-asset identity is the record's.
    MintBMatch,
    /// The record's address re-derives from its maker, seed and stored bump.
    EscrowDerivation,
    /// A vault exists alongside the record.
    VaultPresent,
    /// The vault's transfer authority is the record's derived authority.
    VaultAuthority,
    /// The vault's asset type is the supplied offered-asset identity.
    VaultMint,
    /// The taker's receiving account holds the offered asset type.
    TakerDestMint,
    /// The taker's receiving account belongs to the taker.
    TakerDestOwner,
    /// The taker's source account holds the requested asset type.
    TakerSourceMint,
    /// The taker's source account belongs to the taker.
    TakerSourceOwner,
    /// The maker's receiving account is keyed to the offered asset type.
    MakerDestMint,
    /// The maker's receiving account belongs to the maker.
    MakerDestOwner,
}

/// The first failing predicate of the redemption validator, or `None` when
/// every structural relationship holds.
pub open spec fn take_validation_label(a: TakeAccounts, program: Seq<u8>) -> Option<TakeCheck> {
    match a.escrow {
        None => Some(TakeCheck::EscrowPresent),
        Some(e) => if e.maker@ != a.maker@ {
            Some(TakeCheck::MakerMatch)
        } else if e.mint_a@ != a.mint_a@ {
            Some(TakeCheck::MintAMatch)
        } else if e.mint_b@ != a.mint_b@ {
            Some(TakeCheck::MintBMatch)
        } else if derived_address(with_bump(escrow_seeds(a.maker@, e.seed), e.bump), program)
            != Some(a.escrow_addr@) {
            Some(TakeCheck::EscrowDerivation)
        } else {
            match a.vault {
                None => Some(TakeCheck::VaultPresent),
                Some(v) => if v.authority@ != a.escrow_addr@ {
                    Some(TakeCheck::VaultAuthority)
                } else if v.mint@ != a.mint_a@ {
                    Some(TakeCheck::VaultMint)
                } else if a.taker_mint_a_ata.mint@ != a.mint_a@ {
                    Some(TakeCheck::TakerDestMint)
                } else if a.taker_mint_a_ata.authority@ != a.taker@ {
                    Some(TakeCheck::TakerDestOwner)
                } else if a.taker_mint_b_ata.mint@ != a.mint_b@ {
                    Some(TakeCheck::TakerSourceMint)
                } else if a.taker_mint_b_ata.authority@ != a.taker@ {
                    Some(TakeCheck::TakerSourceOwner)
                } else if a.maker_mint_b_ata.mint@ != a.mint_a@ {
                    Some(TakeCheck::MakerDestMint)
                } else if a.maker_mint_b_ata.authority@ != a.maker@ {
                    Some(TakeCheck::MakerDestOwner)
                } else {
                    None
                },
            }
        },
    }
}

/// What a redemption reports for these records: a labeled failure, or `None`
/// when it succeeds. Constraint failures surface before the balance check.
pub open spec fn take_error(a: TakeAccounts, program: Seq<u8>) -> Option<ProtocolError> {
    match take_validation_label(a, program) {
        Some(_) => Some(ProtocolError::ConstraintViolation),
        None => match a.escrow {
            Some(e) => if a.taker_mint_b_ata.amount < e.receive_amount {
                Some(ProtocolError::InsufficientBalance)
            } else {
                None
            },
            None => Some(ProtocolError::ConstraintViolation),
        },
    }
}

/// The machine limit a successful redemption must respect: neither receiving
/// balance may overflow its 64-bit counter.
pub open spec fn take_no_overflow(a: TakeAccounts) -> bool {
    match (a.escrow, a.vault) {
        (Some(e), Some(v)) => a.taker_mint_a_ata.amount + v.amount <= u64::MAX
            && a.maker_mint_b_ata.amount + e.receive_amount <= u64::MAX,
        _ => true,
    }
}

/// The records after a successful redemption: the demanded amount of asset B
/// moves from taker to maker, the vault's whole balance moves to the taker,
/// and vault and escrow record cease to exist.
pub open spec fn take_apply(a: TakeAccounts) -> TakeAccounts {
    match (a.escrow, a.vault) {
        (Some(e), Some(v)) => TakeAccounts {
            escrow: None,
            vault: None,
            taker_mint_a_ata: TokenAccount {
                amount: (a.taker_mint_a_ata.amount + v.amount) as u64,
                ..a.taker_mint_a_ata
            },
            taker_mint_b_ata: TokenAccount {
                amount: (a.taker_mint_b_ata.amount - e.receive_amount) as u64,
                ..a.taker_mint_b_ata
            },
            maker_mint_b_ata: TokenAccount {
                amount: (a.maker_mint_b_ata.amount + e.receive_amount) as u64,
                ..a.maker_mint_b_ata
            },
            ..a
        },
        _ => a,
    }
}

/// Runs the redemption validator: every structural relationship the
/// protocol depends on, checked in full before any mutation, reporting the
/// first failing predicate's label.
pub fn validate_take(a: &TakeAccounts, program: &Id) -> (r: Result<(), TakeCheck>)
    ensures
        (match take_validation_label(*a, program@) {
            None => r == Ok::<(), TakeCheck>(()),
            Some(l) => r == Err::<(), TakeCheck>(l),
        }),
{
    let e = match a.escrow {
        None => {
            return Err(TakeCheck::EscrowPresent);
        },
        Some(e) => e,
    };
    if !id_eq(&e.maker, &a.maker) {
        return Err(TakeCheck::MakerMatch);
    }
    if !id_eq(&e.mint_a, &a.mint_a) {
        return Err(TakeCheck::MintAMatch);
    }
    if !id_eq(&e.mint_b, &a.mint_b) {
        return Err(TakeCheck::MintBMatch);
    }
    if !verify_escrow_authority(&a.escrow_addr, &a.maker, e.seed, e.bump, program) {
        return Err(TakeCheck::EscrowDerivation);
    }
    let v = match a.vault {
        None => {
            return Err(TakeCheck::VaultPresent);
        },
        Some(v) => v,
    };
    if !id_eq(&v.authority, &a.escrow_addr) {
        return Err(TakeCheck::VaultAuthority);
    }
    if !id_eq(&v.mint, &a.mint_a) {
        return Err(TakeCheck::VaultMint);
    }
    if !id_eq(&a.taker_mint_a_ata.mint, &a.mint_a) {
        return Err(TakeCheck::TakerDestMint);
    }
    if !id_eq(&a.taker_mint_a_ata.authority, &a.taker) {
        return Err(TakeCheck::TakerDestOwner);
    }
    if !id_eq(&a.taker_mint_b_ata.mint, &a.mint_b) {
        return Err(TakeCheck::TakerSourceMint);
    }
    if !id_eq(&a.taker_mint_b_ata.authority, &a.taker) {
        return Err(TakeCheck::TakerSourceOwner);
    }
    if !id_eq(&a.maker_mint_b_ata.mint, &a.mint_a) {
        return Err(TakeCheck::MakerDestMint);
    }
    if !id_eq(&a.maker_mint_b_ata.authority, &a.maker) {
        return Err(TakeCheck::MakerDestOwner);
    }
    Ok(())
}

/// Redeems an open escrow as one atomic unit: the taker pays the demanded
/// amount of asset B to the maker, receives the vault's whole balance of
/// asset A, and both the vault and the escrow record are destroyed. Any
/// failure leaves every record unchanged.
pub fn take(a: &mut TakeAccounts, program: &Id) -> (r: Result<(), ProtocolError>)
    requires
        take_no_overflow(*old(a)),
    ensures
        (match take_error(*old(a), program@) {
            Some(e) => r == Err::<(), ProtocolError>(e) && *final(a) == *old(a),
            None => r == Ok::<(), ProtocolError>(()) && *final(a) == take_apply(*old(a)),
        }),
{
    match validate_take(a, program) {
        Err(_) => {
            return Err(ProtocolError::ConstraintViolation);
        },
        Ok(()) => {},
    }
    let e = a.escrow.unwrap();
    let v = a.vault.unwrap();
    if a.taker_mint_b_ata.amount < e.receive_amount {
        return Err(ProtocolError::InsufficientBalance);
    }
    a.taker_mint_b_ata.amount = a.taker_mint_b_ata.amount - e.receive_amount;
    a.maker_mint_b_ata.amount = a.maker_mint_b_ata.amount + e.receive_amount;
    a.taker_mint_a_ata.amount = a.taker_mint_a_ata.amount + v.amount;
    a.vault = None;
    a.escrow = None;
    Ok(())
}

/// Law: a successful redemption credits the taker with exactly the vault's
/// pre-call balance, credits the maker's receiving account with exactly the
/// demanded amount, debits the taker's source by the same amount, and
/// destroys both the vault and the escrow record.
pub proof fn lemma_take_success_settles(a: TakeAccounts, program: Seq<u8>)
    requires
        take_error(a, program) is None,
        take_no_overflow(a),
    ensures
        (match (a.escrow, a.vault) {
            (Some(e), Some(v)) => {
                let post = take_apply(a);
                &&& post.taker_mint_a_ata.amount == a.taker_mint_a_ata.amount + v.amount
                &&& post.maker_mint_b_ata.amount == a.maker_mint_b_ata.amount + e.receive_amount
                &&& post.taker_mint_b_ata.amount == a.taker_mint_b_ata.amount - e.receive_amount
                &&& post.escrow is None
                &&& post.vault is None
            },
            _ => false,
        }),
{
}

/// Law: redemption with an underfunded taker source account reports the
/// insufficient balance (and, by `take`'s contract, changes nothing).
pub proof fn lemma_take_insufficient_balance(a: TakeAccounts, program: Seq<u8>)
    requires
        take_validation_label(a, program) is None,
        (match a.escrow {
            Some(e) => a.taker_mint_b_ata.amount < e.receive_amount,
            None => false,
        }),
    ensures
        take_error(a, program) == Some(ProtocolError::InsufficientBalance),
{
}

/// Law: a supplied offered-asset identity that does not match the vault's
/// recorded asset type is rejected as a constraint violation (and, by
/// `take`'s contract, nothing is transferred).
pub proof fn lemma_take_vault_mint_mismatch(a: TakeAccounts, program: Seq<u8>)
    requires
        (match a.vault {
            Some(v) => v.mint@ != a.mint_a@,
            None => false,
        }),
    ensures
        take_error(a, program) == Some(ProtocolError::ConstraintViolation),
{
}

/// Law: redemption happens at most once. After a successful redemption the
/// escrow record is gone, so a second attempt on the same records reports a
/// constraint violation and changes nothing further.
pub proof fn lemma_take_at_most_once(a: TakeAccounts, program: Seq<u8>)
    requires
        take_error(a, program) is None,
    ensures
        take_error(take_apply(a), program) == Some(ProtocolError::ConstraintViolation),
        take_validation_label(take_apply(a), program) == Some(TakeCheck::EscrowPresent),
{
}

} // verus!
