use anchor_lang::solana_program::pubkey::Pubkey;
use custody_core::records::EscrowRecord;
use custody_core::records::TokenAccount;
use custody_core::take::take;
use custody_core::take::validate_take;
use custody_core::take::TakeAccounts;
use custody_core::take::TakeCheck;
use custody_core::authority::verify_escrow_authority;
use custody_core::ProtocolError;

fn id(n: u8) -> [u8; 32] {
    [n; 32]
}

fn token(mint: [u8; 32], authority: [u8; 32], amount: u64) -> TokenAccount {
    TokenAccount { mint, authority, amount, delegate: None, delegated_amount: 0, frozen: false }
}

fn escrow_pda(maker: &[u8; 32], seed: u64, program: &[u8; 32]) -> ([u8; 32], u8) {
    let (addr, bump) = Pubkey::find_program_address(
        &[b"escrow", maker.as_ref(), &seed.to_le_bytes()],
        &Pubkey::new_from_array(*program),
    );
    (addr.to_bytes(), bump)
}

/// A well-formed open escrow: maker offers `vault_amount` of asset A under
/// `seed`, demanding `receive_amount` of asset B; the taker holds
/// `taker_b_amount` of asset B.
fn open_escrow(
    seed: u64,
    vault_amount: u64,
    receive_amount: u64,
    taker_b_amount: u64,
    program: &[u8; 32],
) -> TakeAccounts {
    let taker = id(1);
    let maker = id(2);
    let mint_a = id(3);
    let mint_b = id(4);
    let (escrow_addr, bump) = escrow_pda(&maker, seed, program);
    TakeAccounts {
        taker,
        maker,
        mint_a,
        mint_b,
        escrow_addr,
        escrow: Some(EscrowRecord { maker, mint_a, mint_b, seed, receive_amount, bump }),
        vault: Some(token(mint_a, escrow_addr, vault_amount)),
        taker_mint_a_ata: token(mint_a, taker, 0),
        taker_mint_b_ata: token(mint_b, taker, taker_b_amount),
        maker_mint_b_ata: token(mint_a, maker, 0),
    }
}

#[test]
fn scenario_a_redemption_settles() {
    let program = id(9);
    let mut a = open_escrow(7, 100, 50, 60, &program);
    let r = take(&mut a, &program);
    assert!(r == Ok(()));
    assert!(a.taker_mint_a_ata.amount == 100);
    assert!(a.maker_mint_b_ata.amount == 50);
    assert!(a.taker_mint_b_ata.amount == 10);
    assert!(a.escrow.is_none());
    assert!(a.vault.is_none());
}

#[test]
fn take_exact_balance_succeeds() {
    let program = id(9);
    let mut a = open_escrow(1, 5, 50, 50, &program);
    assert!(take(&mut a, &program) == Ok(()));
    assert!(a.taker_mint_b_ata.amount == 0);
    assert!(a.maker_mint_b_ata.amount == 50);
    assert!(a.taker_mint_a_ata.amount == 5);
}

#[test]
fn take_zero_receive_amount_succeeds() {
    let program = id(9);
    let mut a = open_escrow(1, 100, 0, 0, &program);
    assert!(take(&mut a, &program) == Ok(()));
    assert!(a.taker_mint_a_ata.amount == 100);
    assert!(a.maker_mint_b_ata.amount == 0);
}

#[test]
fn take_largest_vault_balance_succeeds() {
    let program = id(9);
    let mut a = open_escrow(1, u64::MAX, 1, 1, &program);
    assert!(take(&mut a, &program) == Ok(()));
    assert!(a.taker_mint_a_ata.amount == u64::MAX);
}

#[test]
fn take_insufficient_balance_changes_nothing() {
    let program = id(9);
    let mut a = open_escrow(7, 100, 50, 49, &program);
    let before = a;
    let r = take(&mut a, &program);
    assert!(r == Err(ProtocolError::InsufficientBalance));
    assert!(a == before);
}

#[test]
fn take_vault_mint_mismatch_is_constraint_violation() {
    let program = id(9);
    let mut a = open_escrow(7, 100, 50, 60, &program);
    // The vault actually holds some other asset type than the supplied one.
    a.vault = a.vault.map(|mut v| {
        v.mint = id(5);
        v
    });
    let before = a;
    let r = take(&mut a, &program);
    assert!(r == Err(ProtocolError::ConstraintViolation));
    assert!(a == before);
}

#[test]
fn take_twice_reports_missing_record() {
    let program = id(9);
    let mut a = open_escrow(7, 100, 50, 200, &program);
    assert!(take(&mut a, &program) == Ok(()));
    let after_first = a;
    let r = take(&mut a, &program);
    assert!(r == Err(ProtocolError::ConstraintViolation));
    assert!(a == after_first);
}

#[test]
fn take_wrong_escrow_address_is_rejected() {
    let program = id(9);
    let mut a = open_escrow(7, 100, 50, 60, &program);
    a.escrow_addr = id(8);
    let before = a;
    assert!(take(&mut a, &program) == Err(ProtocolError::ConstraintViolation));
    assert!(a == before);
}

#[test]
fn validate_take_reports_first_failing_predicate() {
    let program = id(9);
    let mut a = open_escrow(7, 100, 50, 60, &program);
    a.maker = id(6);
    assert!(validate_take(&a, &program) == Err(TakeCheck::MakerMatch));
    a = open_escrow(7, 100, 50, 60, &program);
    a.escrow = None;
    assert!(validate_take(&a, &program) == Err(TakeCheck::EscrowPresent));
    a = open_escrow(7, 100, 50, 60, &program);
    a.taker_mint_b_ata.authority = id(6);
    assert!(validate_take(&a, &program) == Err(TakeCheck::TakerSourceOwner));
    a = open_escrow(7, 100, 50, 60, &program);
    assert!(validate_take(&a, &program) == Ok(()));
}

#[test]
fn escrow_authority_matches_ledger_derivation() {
    let program = id(9);
    let maker = id(2);
    let (addr, bump) = escrow_pda(&maker, 7, &program);
    // The derivation is a real hash: it reproduces the ledger's address and
    // differs from every seed that went in.
    assert!(addr != maker);
    assert!(addr != program);
    assert!(verify_escrow_authority(&addr, &maker, 7, bump, &program));
    // A different address, maker, seed or bump is not accepted.
    assert!(!verify_escrow_authority(&id(8), &maker, 7, bump, &program));
    assert!(!verify_escrow_authority(&addr, &id(6), 7, bump, &program));
    assert!(!verify_escrow_authority(&addr, &maker, 8, bump, &program));
    assert!(!verify_escrow_authority(&addr, &maker, 7, bump.wrapping_add(1), &program));
}
