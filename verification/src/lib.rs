//! Trustless conditional custody transfer between mutually distrusting
//! parties, built on a program-controlled signing authority that is derived
//! deterministically from public seed data and has no private key.
//!
//! Two protocols share that primitive: redemption of an escrowed A-for-B
//! swap (`take`), and acquisition of a stake lock over a unique asset
//! (`stake`). Each first runs a pipeline of named constraint checks over the
//! records it references, then performs its balance moves, delegation grant,
//! freeze and record destruction as one atomic unit: any failure leaves every
//! record exactly as it was.

use vstd::prelude::*;

pub mod authority;
pub mod records;
pub mod stake;
pub mod take;

verus! {

/// The labeled failure reasons an operation can report. Every failure aborts
/// the whole operation with zero persisted effect.
#[derive(Clone, Copy, Debug, PartialEq, Eq, Structural)]
pub enum ProtocolError {
    /// A referenced record's fields or derivation do not match expectation.
    ConstraintViolation,
    /// A transfer's source account lacks the funds to move.
    InsufficientBalance,
    /// A stake was attempted at or above the configured cap.
    CapacityExceeded,
    /// A record already exists at the address a creation targeted.
    DuplicateRecord,
    /// The asset's collection-membership attestation does not hold.
    UnverifiedMembership,
}

} // verus!
