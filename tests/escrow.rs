use anchor_escrow::{
    cancel, derive_state_authority, exchange, fund_vault_b, initialize, le_bytes_of,
    min_acceptable_amount, state_seeds, state_tag, verify_state_authority, Address, Cancel,
    ErrorCode, Exchange, Initialize, Ledger,
};

fn addr(b: u8) -> Address {
    Address::new([b; 32])
}

fn program() -> Address {
    addr(200)
}

const INITIALIZER: u8 = 1;
const TAKER: u8 = 2;
const MINT_A: u8 = 10;
const MINT_B: u8 = 11;
const OTHER: u8 = 3;

/// A ledger with four token accounts: the initializer's A (0) and B (1), and
/// the taker's A (2) and B (3).
fn setup(init_a: u64, taker_b: u64) -> Ledger {
    let mut l = Ledger::new(program());
    assert_eq!(l.open_account(addr(INITIALIZER), addr(MINT_A), init_a), 0);
    assert_eq!(l.open_account(addr(INITIALIZER), addr(MINT_B), 0), 1);
    assert_eq!(l.open_account(addr(TAKER), addr(MINT_A), 0), 2);
    assert_eq!(l.open_account(addr(TAKER), addr(MINT_B), taker_b), 3);
    l
}

fn init_accounts() -> Initialize {
    Initialize { initializer: addr(INITIALIZER), initializer_ata_a: 0, mint_b: addr(MINT_B) }
}

fn escrow_address(seed: u64) -> Address {
    derive_state_authority(seed, &program()).expect("derivable").0
}

fn open(l: &mut Ledger, seed: u64, ia: u64, ta: u64) -> Address {
    assert_eq!(initialize(l, &init_accounts(), seed, ia, ta, addr(TAKER)), Ok(()));
    escrow_address(seed)
}

fn cancel_by(signer: u8, escrow: Address) -> Cancel {
    Cancel { signer: addr(signer), escrow, initializer_ata_a: 0, taker_ata_b: 3 }
}

fn exchange_of(escrow: Address) -> Exchange {
    Exchange { escrow, taker_ata_a: 2, initializer_ata_b: 1 }
}

fn balances(l: &Ledger) -> Vec<u64> {
    (0..l.accounts.len()).map(|i| l.balance(i).unwrap()).collect()
}

#[test]
fn address_equality_is_bytewise() {
    let mut b = [5u8; 32];
    assert!(Address::new(b).same_as(&Address::new(b)));
    b[31] = 6;
    assert!(!Address::new(b).same_as(&addr(5)));
}

#[test]
fn seeds_layout() {
    assert_eq!(state_tag(), b"state".to_vec());
    assert_eq!(le_bytes_of(0x0102030405060708), vec![8, 7, 6, 5, 4, 3, 2, 1]);
    let s = state_seeds(42, Some(254));
    assert_eq!(s, vec![b"state".to_vec(), 42u64.to_le_bytes().to_vec(), vec![254]]);
    assert_eq!(state_seeds(42, None).len(), 2);
}

#[test]
fn derived_authority_verifies_with_its_bump_only() {
    let (a, bump) = derive_state_authority(7, &program()).unwrap();
    assert!(bump >= 1);
    assert!(!a.same_as(&program()));
    assert!(verify_state_authority(&a, 7, bump, &program()));
    assert!(!verify_state_authority(&a, 8, bump, &program()));
    let other = derive_state_authority(8, &program()).unwrap();
    assert!(!other.0.same_as(&a));
    let again = derive_state_authority(7, &program()).unwrap();
    assert!(again.0.same_as(&a));
    assert_eq!(again.1, bump);
}

#[test]
fn threshold_is_ceiling_of_ninety_five_percent() {
    assert_eq!(min_acceptable_amount(100), 95);
    assert_eq!(min_acceptable_amount(21), 20);
    assert_eq!(min_acceptable_amount(10), 10);
    assert_eq!(min_acceptable_amount(1), 1);
    assert_eq!(min_acceptable_amount(0), 0);
    assert_eq!(min_acceptable_amount(u64::MAX), 17524406870024074035);
}

#[test]
fn initialize_locks_amount_in_vault_a() {
    let mut l = setup(1000, 0);
    let e = open(&mut l, 1, 400, 300);
    let entry = l.escrow(&e).unwrap();
    assert_eq!(entry.vault_a, 400);
    assert_eq!(entry.vault_b, 0);
    assert_eq!(entry.record.initializer_amount, 400);
    assert_eq!(entry.record.taker_amount, 300);
    assert_eq!(entry.record.seed, 1);
    assert!(entry.record.mint_a.same_as(&addr(MINT_A)));
    assert!(entry.record.taker.same_as(&addr(TAKER)));
    assert!(verify_state_authority(&e, 1, entry.record.bump, &program()));
    assert_eq!(balances(&l), vec![600, 0, 0, 0]);
}

#[test]
fn initialize_twice_with_same_seed_fails() {
    let mut l = setup(1000, 0);
    open(&mut l, 9, 100, 50);
    let r = initialize(&mut l, &init_accounts(), 9, 200, 50, addr(TAKER));
    assert_eq!(r, Err(ErrorCode::AlreadyInitialized));
    assert_eq!(balances(&l), vec![900, 0, 0, 0]);
    assert_eq!(l.escrows.len(), 1);
}

#[test]
fn initialize_errors() {
    let mut l = setup(100, 0);
    let acc = init_accounts();
    assert_eq!(initialize(&mut l, &acc, 1, 0, 5, addr(TAKER)), Err(ErrorCode::InvalidAmount));
    assert_eq!(initialize(&mut l, &acc, 1, 5, 0, addr(TAKER)), Err(ErrorCode::InvalidAmount));
    assert_eq!(initialize(&mut l, &acc, 1, 101, 5, addr(TAKER)), Err(ErrorCode::InsufficientFunds));
    let wrong_owner = Initialize { initializer_ata_a: 2, ..acc };
    assert_eq!(initialize(&mut l, &wrong_owner, 1, 5, 5, addr(TAKER)), Err(ErrorCode::InvalidAccount));
    let missing = Initialize { initializer_ata_a: 99, ..acc };
    assert_eq!(initialize(&mut l, &missing, 1, 5, 5, addr(TAKER)), Err(ErrorCode::InvalidAccount));
    assert_eq!(balances(&l), vec![100, 0, 0, 0]);
    assert_eq!(l.escrows.len(), 0);
    assert_eq!(initialize(&mut l, &acc, 1, 100, 5, addr(TAKER)), Ok(()));
    assert_eq!(balances(&l), vec![0, 0, 0, 0]);
}

#[test]
fn cancel_without_deposit_restores_initializer() {
    let mut l = setup(1000, 0);
    let e = open(&mut l, 2, 250, 100);
    assert_eq!(cancel(&mut l, &cancel_by(INITIALIZER, e)), Ok(()));
    assert_eq!(balances(&l), vec![1000, 0, 0, 0]);
    assert!(l.escrow(&e).is_none());
    assert_eq!(l.escrows.len(), 0);
}

#[test]
fn cancel_refunds_taker_deposit() {
    let mut l = setup(1000, 500);
    let e = open(&mut l, 3, 250, 100);
    assert_eq!(fund_vault_b(&mut l, &addr(TAKER), &e, 3, 80), Ok(()));
    assert_eq!(l.escrow(&e).unwrap().vault_b, 80);
    assert_eq!(balances(&l), vec![750, 0, 0, 420]);
    assert_eq!(cancel(&mut l, &cancel_by(TAKER, e)), Ok(()));
    assert_eq!(balances(&l), vec![1000, 0, 0, 500]);
    assert!(l.escrow(&e).is_none());
}

#[test]
fn cancel_errors() {
    let mut l = setup(1000, 0);
    let e = open(&mut l, 4, 250, 100);
    assert_eq!(cancel(&mut l, &cancel_by(OTHER, e)), Err(ErrorCode::Unauthorized));
    let bad = Cancel { initializer_ata_a: 2, ..cancel_by(INITIALIZER, e) };
    assert_eq!(cancel(&mut l, &bad), Err(ErrorCode::InvalidAccount));
    let bad = Cancel { taker_ata_b: 1, ..cancel_by(INITIALIZER, e) };
    assert_eq!(cancel(&mut l, &bad), Err(ErrorCode::InvalidAccount));
    assert_eq!(cancel(&mut l, &cancel_by(INITIALIZER, addr(99))), Err(ErrorCode::AccountNotInitialized));
    assert_eq!(balances(&l), vec![750, 0, 0, 0]);
    assert!(l.escrow(&e).is_some());
}

#[test]
fn exchange_at_threshold_settles_live_balance() {
    let mut l = setup(1000, 500);
    let e = open(&mut l, 5, 250, 100);
    assert_eq!(fund_vault_b(&mut l, &addr(TAKER), &e, 3, 95), Ok(()));
    assert_eq!(exchange(&mut l, &exchange_of(e)), Ok(()));
    assert_eq!(balances(&l), vec![750, 95, 250, 405]);
    assert!(l.escrow(&e).is_none());
}

#[test]
fn exchange_below_threshold_fails() {
    let mut l = setup(1000, 500);
    let e = open(&mut l, 6, 250, 100);
    assert_eq!(fund_vault_b(&mut l, &addr(TAKER), &e, 3, 94), Ok(()));
    assert_eq!(exchange(&mut l, &exchange_of(e)), Err(ErrorCode::InsufficientTakerTokens));
    assert_eq!(balances(&l), vec![750, 0, 0, 406]);
    assert_eq!(l.escrow(&e).unwrap().vault_b, 94);
    assert_eq!(l.escrow(&e).unwrap().vault_a, 250);
}

#[test]
fn exchange_with_empty_vault_b_fails() {
    let mut l = setup(1000, 0);
    let e = open(&mut l, 16, 250, 1);
    assert_eq!(exchange(&mut l, &exchange_of(e)), Err(ErrorCode::InsufficientTakerTokens));
}

#[test]
fn exchange_forwards_overpayment() {
    let mut l = setup(1000, 500);
    let e = open(&mut l, 7, 250, 100);
    assert_eq!(fund_vault_b(&mut l, &addr(TAKER), &e, 3, 130), Ok(()));
    assert_eq!(exchange(&mut l, &exchange_of(e)), Ok(()));
    assert_eq!(balances(&l), vec![750, 130, 250, 370]);
}

#[test]
fn exchange_errors() {
    let mut l = setup(1000, 500);
    let e = open(&mut l, 8, 250, 100);
    assert_eq!(fund_vault_b(&mut l, &addr(TAKER), &e, 3, 100), Ok(()));
    let bad = Exchange { taker_ata_a: 0, ..exchange_of(e) };
    assert_eq!(exchange(&mut l, &bad), Err(ErrorCode::InvalidAccount));
    let bad = Exchange { initializer_ata_b: 3, ..exchange_of(e) };
    assert_eq!(exchange(&mut l, &bad), Err(ErrorCode::InvalidAccount));
    assert_eq!(exchange(&mut l, &exchange_of(addr(98))), Err(ErrorCode::AccountNotInitialized));
    assert_eq!(balances(&l), vec![750, 0, 0, 400]);
}

#[test]
fn exchange_overflow_is_refused() {
    let mut l = setup(1000, 0);
    let full = l.open_account(addr(TAKER), addr(MINT_A), u64::MAX);
    let e = open(&mut l, 12, 250, 100);
    let funder = l.open_account(addr(TAKER), addr(MINT_B), 100);
    assert_eq!(fund_vault_b(&mut l, &addr(TAKER), &e, funder, 100), Ok(()));
    let x = Exchange { escrow: e, taker_ata_a: full, initializer_ata_b: 1 };
    assert_eq!(exchange(&mut l, &x), Err(ErrorCode::Overflow));
    assert_eq!(l.balance(full), Some(u64::MAX));
}

#[test]
fn fund_vault_b_errors() {
    let mut l = setup(1000, 50);
    let e = open(&mut l, 13, 250, 100);
    assert_eq!(fund_vault_b(&mut l, &addr(TAKER), &e, 3, 51), Err(ErrorCode::InsufficientFunds));
    assert_eq!(fund_vault_b(&mut l, &addr(TAKER), &e, 2, 1), Err(ErrorCode::InvalidAccount));
    assert_eq!(fund_vault_b(&mut l, &addr(INITIALIZER), &e, 3, 1), Err(ErrorCode::InvalidAccount));
    assert_eq!(fund_vault_b(&mut l, &addr(TAKER), &addr(97), 3, 1), Err(ErrorCode::AccountNotInitialized));
    let big = l.open_account(addr(TAKER), addr(MINT_B), u64::MAX);
    assert_eq!(fund_vault_b(&mut l, &addr(TAKER), &e, big, u64::MAX), Ok(()));
    assert_eq!(fund_vault_b(&mut l, &addr(TAKER), &e, 3, 1), Err(ErrorCode::Overflow));
}

#[test]
fn closed_escrow_cannot_be_used_again() {
    let mut l = setup(1000, 500);
    let e = open(&mut l, 14, 250, 100);
    assert_eq!(cancel(&mut l, &cancel_by(INITIALIZER, e)), Ok(()));
    assert_eq!(cancel(&mut l, &cancel_by(INITIALIZER, e)), Err(ErrorCode::AccountNotInitialized));
    assert_eq!(exchange(&mut l, &exchange_of(e)), Err(ErrorCode::AccountNotInitialized));

    let e = open(&mut l, 15, 250, 100);
    assert_eq!(fund_vault_b(&mut l, &addr(TAKER), &e, 3, 100), Ok(()));
    assert_eq!(exchange(&mut l, &exchange_of(e)), Ok(()));
    let after = balances(&l);
    assert_eq!(exchange(&mut l, &exchange_of(e)), Err(ErrorCode::AccountNotInitialized));
    assert_eq!(cancel(&mut l, &cancel_by(TAKER, e)), Err(ErrorCode::AccountNotInitialized));
    assert_eq!(balances(&l), after);
}

#[test]
fn error_messages() {
    assert_eq!(
        ErrorCode::InsufficientTakerTokens.message(),
        "Insufficient tokens in taker's vault - must be at least 95% of requested amount"
    );
    assert_eq!(ErrorCode::AlreadyInitialized.message(), "Escrow already initialized");
}
