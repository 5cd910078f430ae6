//! Derivation of program-controlled addresses from tagged seed tuples.
//!
//! A derived address has no private key; it is a pure function of its seed
//! tuple and the owning program's identity, completed by one extra "bump"
//! byte that pushes the result outside the space of addresses with keys.
//! Anyone can re-derive an address to check who controls it; only the owning
//! program, in process, can exercise that control.

use vstd::prelude::*;
use vstd::bytes::spec_u64_to_le_bytes;
use vstd::bytes::u64_to_le_bytes;
use vstd::slice::slice_to_vec;
use crate::records::Id;
use crate::records::id_eq;
use anchor_lang::solana_program::pubkey::Pubkey;

verus! {

/// The views of a list of seed buffers, in order.
pub open spec fn views_of(seeds: Seq<Vec<u8>>) -> Seq<Seq<u8>> {
    Seq::new(seeds.len(), |i: int| seeds[i]@)
}

/// The bytes of the escrow domain tag, "escrow".
pub open spec fn escrow_tag() -> Seq<u8> {
    seq![101u8, 115u8, 99u8, 114u8, 111u8, 119u8]
}

/// The bytes of the stake-record domain tag, "stake".
pub open spec fn stake_tag() -> Seq<u8> {
    seq![115u8, 116u8, 97u8, 107u8, 101u8]
}

/// The bytes of the policy-record domain tag, "config".
pub open spec fn config_tag() -> Seq<u8> {
    seq![99u8, 111u8, 110u8, 102u8, 105u8, 103u8]
}

/// The bytes of the user-aggregate domain tag, "user".
pub open spec fn user_tag() -> Seq<u8> {
    seq![117u8, 115u8, 101u8, 114u8]
}

/// The seed tuple of an escrow record: tag, maker, 64-bit seed (little
/// endian).
pub open spec fn escrow_seeds(maker: Seq<u8>, seed: u64) -> Seq<Seq<u8>> {
    seq![escrow_tag(), maker, spec_u64_to_le_bytes(seed)]
}

/// The seed tuple of a stake record: tag, asset identity, policy address.
pub open spec fn stake_seeds(mint: Seq<u8>, config_addr: Seq<u8>) -> Seq<Seq<u8>> {
    seq![stake_tag(), mint, config_addr]
}

/// The seed tuple of the singleton policy record.
pub open spec fn config_seeds() -> Seq<Seq<u8>> {
    seq![config_tag()]
}

/// The seed tuple of a user aggregate record.
pub open spec fn user_seeds(user: Seq<u8>) -> Seq<Seq<u8>> {
    seq![user_tag(), user]
}

/// A seed tuple completed by its bump byte as one extra single-byte seed.
pub open spec fn with_bump(seeds: Seq<Seq<u8>>, bump: u8) -> Seq<Seq<u8>> {
    seeds.push(seq![bump])
}

/// What the deterministic address derivation yields for a completed seed
/// tuple under a program identity: an address, or nothing when the seeds are
/// over the platform limits or the derived point has a private key.
pub uninterp spec fn derived_address(seeds: Seq<Seq<u8>>, program: Seq<u8>) -> Option<Seq<u8>>;

/// What the bump search yields for an uncompleted seed tuple under a program
/// identity: the first viable address and its bump byte, or nothing when no
/// bump is viable.
pub uninterp spec fn found_authority(seeds: Seq<Seq<u8>>, program: Seq<u8>) -> Option<(Seq<u8>, u8)>;

/// Relies on `Pubkey::create_program_address` (anchor-lang's re-exported
/// address type): the result is a pure function of the seed slices and the
/// program identity, and the call fails exactly when the derivation yields
/// no program-controlled address for these seeds.
#[verifier::external_body]
fn create_address(seeds: &Vec<Vec<u8>>, program: &Id) -> (r: Option<Id>)
    ensures
        (match r {
            Some(a) => derived_address(views_of(seeds@), program@) == Some(a@),
            None => derived_address(views_of(seeds@), program@) is None,
        }),
{
    let refs: Vec<&[u8]> = seeds.iter().map(|s| s.as_slice()).collect();
    match Pubkey::create_program_address(&refs, &Pubkey::new_from_array(*program)) {
        Ok(a) => Some(a.to_bytes()),
        Err(_) => None,
    }
}

/// Relies on `Pubkey::try_find_program_address`: the bump search is
/// deterministic in the seed slices and the program identity, and a found
/// pair re-creates its own address when the bump is appended as one extra
/// seed (the documented relation between the two derivation calls).
#[verifier::external_body]
fn find_address(seeds: &Vec<Vec<u8>>, program: &Id) -> (r: Option<(Id, u8)>)
    ensures
        (match r {
            Some(p) => found_authority(views_of(seeds@), program@) == Some((p.0@, p.1))
                && derived_address(with_bump(views_of(seeds@), p.1), program@) == Some(p.0@),
            None => found_authority(views_of(seeds@), program@) is None,
        }),
{
    let refs: Vec<&[u8]> = seeds.iter().map(|s| s.as_slice()).collect();
    match Pubkey::try_find_program_address(&refs, &Pubkey::new_from_array(*program)) {
        Some((a, b)) => Some((a.to_bytes(), b)),
        None => None,
    }
}

/// The escrow domain tag as a buffer.
fn escrow_tag_vec() -> (r: Vec<u8>)
    ensures
        r@ == escrow_tag(),
{
    let mut v: Vec<u8> = Vec::new();
    v.push(101u8);
    v.push(115u8);
    v.push(99u8);
    v.push(114u8);
    v.push(111u8);
    v.push(119u8);
    proof {
        assert(v@ =~= escrow_tag());
    }
    v
}

/// The stake-record domain tag as a buffer.
fn stake_tag_vec() -> (r: Vec<u8>)
    ensures
        r@ == stake_tag(),
{
    let mut v: Vec<u8> = Vec::new();
    v.push(115u8);
    v.push(116u8);
    v.push(97u8);
    v.push(107u8);
    v.push(101u8);
    proof {
        assert(v@ =~= stake_tag());
    }
    v
}

/// The policy-record domain tag as a buffer.
fn config_tag_vec() -> (r: Vec<u8>)
    ensures
        r@ == config_tag(),
{
    let mut v: Vec<u8> = Vec::new();
    v.push(99u8);
    v.push(111u8);
    v.push(110u8);
    v.push(102u8);
    v.push(105u8);
    v.push(103u8);
    proof {
        assert(v@ =~= config_tag());
    }
    v
}

/// The user-aggregate domain tag as a buffer.
fn user_tag_vec() -> (r: Vec<u8>)
    ensures
        r@ == user_tag(),
{
    let mut v: Vec<u8> = Vec::new();
    v.push(117u8);
    v.push(115u8);
    v.push(101u8);
    v.push(114u8);
    proof {
        assert(v@ =~= user_tag());
    }
    v
}

/// One single-byte seed holding a bump.
fn bump_vec(bump: u8) -> (r: Vec<u8>)
    ensures
        r@ == seq![bump],
{
    let mut v: Vec<u8> = Vec::new();
    v.push(bump);
    proof {
        assert(v@ =~= seq![bump]);
    }
    v
}

/// Re-derives an escrow record's own address from its maker, seed and stored
/// bump; `None` when that bump yields no program-controlled address.
pub fn derive_escrow_authority(maker: &Id, seed: u64, bump: u8, program: &Id) -> (r: Option<Id>)
    ensures
        (match r {
            Some(a) => derived_address(with_bump(escrow_seeds(maker@, seed), bump), program@)
                == Some(a@),
            None => derived_address(with_bump(escrow_seeds(maker@, seed), bump), program@)
                is None,
        }),
{
    let mut seeds: Vec<Vec<u8>> = Vec::new();
    seeds.push(escrow_tag_vec());
    seeds.push(slice_to_vec(maker.as_slice()));
    seeds.push(u64_to_le_bytes(seed));
    seeds.push(bump_vec(bump));
    proof {
        assert(views_of(seeds@) =~= with_bump(escrow_seeds(maker@, seed), bump));
    }
    create_address(&seeds, program)
}

/// Checks publicly that `addr` is the derived authority for the escrow seed
/// tuple `(maker, seed)` completed by `bump`.
pub fn verify_escrow_authority(addr: &Id, maker: &Id, seed: u64, bump: u8, program: &Id) -> (r:
    bool)
    ensures
        r == (derived_address(with_bump(escrow_seeds(maker@, seed), bump), program@) == Some(
            addr@,
        )),
{
    match derive_escrow_authority(maker, seed, bump, program) {
        Some(a) => id_eq(&a, addr),
        None => false,
    }
}

/// Searches for the stake record's derived authority for `(mint, config)`;
/// `None` when no bump byte is viable.
pub fn find_stake_authority(mint: &Id, config_addr: &Id, program: &Id) -> (r: Option<(Id, u8)>)
    ensures
        (match r {
            Some(p) => found_authority(stake_seeds(mint@, config_addr@), program@) == Some(
                (p.0@, p.1),
            ) && derived_address(with_bump(stake_seeds(mint@, config_addr@), p.1), program@)
                == Some(p.0@),
            None => found_authority(stake_seeds(mint@, config_addr@), program@) is None,
        }),
{
    let mut seeds: Vec<Vec<u8>> = Vec::new();
    seeds.push(stake_tag_vec());
    seeds.push(slice_to_vec(mint.as_slice()));
    seeds.push(slice_to_vec(config_addr.as_slice()));
    proof {
        assert(views_of(seeds@) =~= stake_seeds(mint@, config_addr@));
    }
    find_address(&seeds, program)
}

/// Checks publicly that `addr` is the policy record's derived address for
/// the stored bump.
pub fn verify_config_address(addr: &Id, bump: u8, program: &Id) -> (r: bool)
    ensures
        r == (derived_address(with_bump(config_seeds(), bump), program@) == Some(addr@)),
{
    let mut seeds: Vec<Vec<u8>> = Vec::new();
    seeds.push(config_tag_vec());
    seeds.push(bump_vec(bump));
    proof {
        assert(views_of(seeds@) =~= with_bump(config_seeds(), bump));
    }
    match create_address(&seeds, program) {
        Some(a) => id_eq(&a, addr),
        None => false,
    }
}

/// Checks publicly that `addr` is a user aggregate's derived address for the
/// stored bump.
pub fn verify_user_address(addr: &Id, user: &Id, bump: u8, program: &Id) -> (r: bool)
    ensures
        r == (derived_address(with_bump(user_seeds(user@), bump), program@) == Some(addr@)),
{
    let mut seeds: Vec<Vec<u8>> = Vec::new();
    seeds.push(user_tag_vec());
    seeds.push(slice_to_vec(user.as_slice()));
    seeds.push(bump_vec(bump));
    proof {
        assert(views_of(seeds@) =~= with_bump(user_seeds(user@), bump));
    }
    match create_address(&seeds, program) {
        Some(a) => id_eq(&a, addr),
        None => false,
    }
}

} // verus!
