use anchor_lang::solana_program::pubkey::Pubkey;
use custody_core::records::AssetMetadata;
use custody_core::records::CollectionInfo;
use custody_core::records::StakeConfig;
use custody_core::records::StakeRecord;
use custody_core::records::TokenAccount;
use custody_core::records::UserAccount;
use custody_core::stake::stake;
use custody_core::stake::validate_stake;
use custody_core::stake::StakeAccounts;
use custody_core::stake::StakeCheck;
use custody_core::ProtocolError;

fn id(n: u8) -> [u8; 32] {
    [n; 32]
}

fn pda(seeds: &[&[u8]], program: &[u8; 32]) -> ([u8; 32], u8) {
    let (addr, bump) = Pubkey::find_program_address(seeds, &Pubkey::new_from_array(*program));
    (addr.to_bytes(), bump)
}

/// A stakeable world: a verified-collection asset held by the user, a policy
/// allowing `max_stake` concurrent stakes, `active` of them already taken.
fn stakeable(mint: [u8; 32], active: u32, max_stake: u32, program: &[u8; 32]) -> StakeAccounts {
    let user = id(1);
    let collection_mint = id(3);
    let (config_addr, config_bump) = pda(&[b"config"], program);
    let (user_addr, user_bump) = pda(&[b"user", user.as_ref()], program);
    StakeAccounts {
        user,
        mint,
        collection_mint,
        mint_ata: TokenAccount {
            mint,
            authority: user,
            amount: 1,
            delegate: None,
            delegated_amount: 0,
            frozen: false,
        },
        metadata: AssetMetadata {
            collection: Some(CollectionInfo { key: collection_mint, verified: true }),
        },
        config_addr,
        config: StakeConfig { max_stake, bump: config_bump },
        stake_record: None,
        user_addr,
        user_account: UserAccount { amount: active, bump: user_bump },
    }
}

#[test]
fn scenario_b_lock_then_capacity() {
    let program = id(9);
    let mut a = stakeable(id(2), 4, 5, &program);
    let r = stake(&mut a, &program, 1_700_000_000);
    assert!(r == Ok(()));
    assert!(a.user_account.amount == 5);
    assert!(a.mint_ata.frozen);
    let (stake_addr, stake_bump) =
        pda(&[b"stake", id(2).as_ref(), a.config_addr.as_ref()], &program);
    assert!(a.mint_ata.delegate == Some(stake_addr));
    assert!(a.mint_ata.delegated_amount == 1);
    assert!(
        a.stake_record
            == Some(StakeRecord {
                owner: id(1),
                mint: id(2),
                staked_at: 1_700_000_000,
                bump: stake_bump,
            })
    );
    // A second asset under the now-full aggregate is refused unchanged.
    let mut b = stakeable(id(4), a.user_account.amount, 5, &program);
    let before = b;
    assert!(stake(&mut b, &program, 1_700_000_001) == Err(ProtocolError::CapacityExceeded));
    assert!(b == before);
}

#[test]
fn stake_records_observed_time() {
    let program = id(9);
    let mut a = stakeable(id(2), 0, 1, &program);
    assert!(stake(&mut a, &program, -42) == Ok(()));
    assert!(a.stake_record.map(|s| s.staked_at) == Some(-42));
    assert!(a.user_account.amount == 1);
}

#[test]
fn stake_at_cap_changes_nothing() {
    let program = id(9);
    let mut a = stakeable(id(2), 5, 5, &program);
    let before = a;
    assert!(stake(&mut a, &program, 7) == Err(ProtocolError::CapacityExceeded));
    assert!(a == before);
}

#[test]
fn stake_zero_cap_changes_nothing() {
    let program = id(9);
    let mut a = stakeable(id(2), 0, 0, &program);
    let before = a;
    assert!(stake(&mut a, &program, 7) == Err(ProtocolError::CapacityExceeded));
    assert!(a == before);
}

#[test]
fn stake_unverified_membership_changes_nothing() {
    let program = id(9);
    let mut a = stakeable(id(2), 0, 5, &program);
    a.metadata.collection = Some(CollectionInfo { key: a.collection_mint, verified: false });
    let before = a;
    assert!(stake(&mut a, &program, 7) == Err(ProtocolError::UnverifiedMembership));
    assert!(a == before);
}

#[test]
fn stake_wrong_collection_changes_nothing() {
    let program = id(9);
    let mut a = stakeable(id(2), 0, 5, &program);
    a.metadata.collection = Some(CollectionInfo { key: id(8), verified: true });
    let before = a;
    assert!(stake(&mut a, &program, 7) == Err(ProtocolError::UnverifiedMembership));
    assert!(a == before);
}

#[test]
fn stake_without_collection_changes_nothing() {
    let program = id(9);
    let mut a = stakeable(id(2), 0, 5, &program);
    a.metadata.collection = None;
    let before = a;
    assert!(stake(&mut a, &program, 7) == Err(ProtocolError::UnverifiedMembership));
    assert!(a == before);
}

#[test]
fn stake_duplicate_record_collides() {
    let program = id(9);
    let mut a = stakeable(id(2), 1, 5, &program);
    a.stake_record = Some(StakeRecord { owner: id(1), mint: id(2), staked_at: 5, bump: 255 });
    let before = a;
    assert!(stake(&mut a, &program, 7) == Err(ProtocolError::DuplicateRecord));
    assert!(a == before);
}

#[test]
fn stake_same_asset_twice_collides() {
    let program = id(9);
    let mut a = stakeable(id(2), 0, 5, &program);
    assert!(stake(&mut a, &program, 7) == Ok(()));
    // Thaw the holding account as an external unstake would, but leave the
    // record: the creation still collides.
    a.mint_ata.frozen = false;
    let before = a;
    assert!(stake(&mut a, &program, 8) == Err(ProtocolError::DuplicateRecord));
    assert!(a == before);
}

#[test]
fn stake_frozen_account_is_constraint_violation() {
    let program = id(9);
    let mut a = stakeable(id(2), 0, 5, &program);
    a.mint_ata.frozen = true;
    let before = a;
    assert!(stake(&mut a, &program, 7) == Err(ProtocolError::ConstraintViolation));
    assert!(a == before);
}

#[test]
fn validate_stake_reports_first_failing_predicate() {
    let program = id(9);
    let mut a = stakeable(id(2), 0, 5, &program);
    assert!(validate_stake(&a, &program) == Ok(()));
    a.config_addr = id(8);
    assert!(validate_stake(&a, &program) == Err(StakeCheck::ConfigDerivation));
    a = stakeable(id(2), 0, 5, &program);
    a.user_addr = id(8);
    assert!(validate_stake(&a, &program) == Err(StakeCheck::UserDerivation));
    a = stakeable(id(2), 0, 5, &program);
    a.mint_ata.authority = id(8);
    assert!(validate_stake(&a, &program) == Err(StakeCheck::AtaOwner));
    a = stakeable(id(2), 0, 5, &program);
    a.mint_ata.mint = id(8);
    assert!(validate_stake(&a, &program) == Err(StakeCheck::AtaMint));
}
