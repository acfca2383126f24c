use anchor_escrow::{
    approve, dispute, initialize, refund, resolve, split, withdraw_for_resolve, Address,
    AdminState, Approve, Dispute, EscrowError, EscrowState, Initialize, Refund, Resolve,
    SplitMode, TokenAccount, WithdrawForResolve,
};

const INITIALIZER: u8 = 10;
const TAKER: u8 = 11;
const ADMIN1: u8 = 1;
const ADMIN2: u8 = 2;
const RESOLVER: u8 = 3;
const MINT: u8 = 50;

fn addr(b: u8) -> Address {
    Address::new([b; 32])
}

fn account(owner: u8, amount: u64) -> TokenAccount {
    TokenAccount { owner: addr(owner), mint: addr(MINT), amount }
}

fn admin(admin_fee: u64, resolver_fee: u64) -> AdminState {
    AdminState {
        bump: 254,
        admin_fee,
        resolver_fee,
        admin1: addr(ADMIN1),
        admin2: addr(ADMIN2),
        resolver: addr(RESOLVER),
    }
}

fn program_id() -> Address {
    addr(77)
}

fn open(seed: u64, amounts: [u64; 5], balance: u64) -> (Result<anchor_escrow::Deposit, EscrowError>, Initialize) {
    let mut ctx = Initialize {
        initializer: addr(INITIALIZER),
        taker: addr(TAKER),
        mint: addr(MINT),
        initializer_deposit_token_account: account(INITIALIZER, balance),
        escrow_state: None,
        escrow_state_bump: 255,
        vault_bump: 253,
    };
    let r = initialize(&mut ctx, &program_id(), seed, amounts);
    (r, ctx)
}

fn record(amounts: [u64; 5], disputed: bool) -> EscrowState {
    EscrowState {
        random_seed: 7,
        initializer_key: addr(INITIALIZER),
        taker: addr(TAKER),
        initializer_amount: amounts,
        dispute_status: disputed,
        mint: addr(MINT),
        bump: 255,
        vault_bump: 253,
    }
}

fn approval(state: EscrowState, admin_state: AdminState) -> Approve {
    Approve {
        initializer: addr(INITIALIZER),
        taker_token_account: account(TAKER, 0),
        admin1_token_account: account(ADMIN1, 0),
        admin2_token_account: account(ADMIN2, 0),
        escrow_state: state,
        admin_state,
    }
}

fn settlement(state: EscrowState, admin_state: AdminState, recipient: u8) -> Resolve {
    Resolve {
        resolver: addr(RESOLVER),
        taker_token_account: account(recipient, 0),
        admin1_token_account: account(ADMIN1, 0),
        admin2_token_account: account(ADMIN2, 0),
        resolver_token_account: account(RESOLVER, 0),
        escrow_state: state,
        admin_state,
    }
}

fn refunding(state: EscrowState, admin_state: AdminState) -> Refund {
    Refund {
        taker: addr(TAKER),
        initializer_deposit_token_account: account(INITIALIZER, 0),
        admin1_token_account: account(ADMIN1, 0),
        admin2_token_account: account(ADMIN2, 0),
        escrow_state: state,
        admin_state,
    }
}

#[test]
fn initialize_deposits_the_milestone_sum() {
    let (r, ctx) = open(7, [100, 200, 0, 0, 5], 1000);
    let deposit = r.unwrap();
    assert_eq!(deposit.amount, 305);
    let state = ctx.escrow_state.unwrap();
    assert_eq!(state.initializer_amount, [100, 200, 0, 0, 5]);
    assert_eq!(state.random_seed, 7);
    assert!(!state.dispute_status);
    assert_eq!(state.taker, addr(TAKER));
    assert_eq!(state.mint, addr(MINT));
    assert_eq!(state.bump, 255);
    assert_eq!(state.vault_bump, 253);
}

#[test]
fn initialize_hands_the_vault_to_the_derived_authority() {
    let (r, _) = open(7, [1, 0, 0, 0, 0], 1);
    let deposit = r.unwrap();
    let id = anchor_lang::prelude::Pubkey::new_from_array(program_id().bytes);
    let (expected, _) = anchor_lang::prelude::Pubkey::find_program_address(&[b"authority"], &id);
    assert_eq!(deposit.vault_authority.bytes, expected.to_bytes());
    assert_ne!(deposit.vault_authority, program_id());
}

#[test]
fn initialize_with_exact_balance_succeeds() {
    let (r, _) = open(1, [10, 20, 30, 40, 50], 150);
    assert_eq!(r.unwrap().amount, 150);
}

#[test]
fn initialize_with_short_balance_is_refused() {
    let (r, ctx) = open(1, [10, 20, 30, 40, 50], 149);
    assert_eq!(r.unwrap_err(), EscrowError::InvariantViolation);
    assert!(ctx.escrow_state.is_none());
}

#[test]
fn initialize_with_overflowing_sum_is_refused() {
    let (r, _) = open(1, [u64::MAX, 1, 0, 0, 0], u64::MAX);
    assert_eq!(r.unwrap_err(), EscrowError::InvariantViolation);
}

#[test]
fn initialize_over_existing_record_is_duplicate() {
    let (_, mut ctx) = open(7, [1, 0, 0, 0, 0], 10);
    let r = initialize(&mut ctx, &program_id(), 7, [2, 0, 0, 0, 0]);
    assert_eq!(r.unwrap_err(), EscrowError::DuplicateRecord);
    assert_eq!(ctx.escrow_state.unwrap().initializer_amount, [1, 0, 0, 0, 0]);
}

#[test]
fn initialize_from_foreign_account_is_mismatch() {
    let mut ctx = Initialize {
        initializer: addr(INITIALIZER),
        taker: addr(TAKER),
        mint: addr(MINT),
        initializer_deposit_token_account: account(TAKER, 1000),
        escrow_state: None,
        escrow_state_bump: 255,
        vault_bump: 253,
    };
    let r = initialize(&mut ctx, &program_id(), 1, [1, 0, 0, 0, 0]);
    assert_eq!(r.unwrap_err(), EscrowError::AccountMismatch);
}

#[test]
fn milestone_scenario_with_dispute() {
    let (r, ctx) = open(7, [100, 200, 0, 0, 0], 300);
    assert_eq!(r.unwrap().amount, 300);
    let fees = admin(0, 0);

    let mut a = approval(ctx.escrow_state.unwrap(), fees);
    let s = approve(&mut a, 0).unwrap();
    assert_eq!(s.primary, 100);
    assert_eq!(s.admin1_share, 0);
    assert_eq!(s.admin2_share, 0);
    assert_eq!(a.escrow_state.initializer_amount, [0, 200, 0, 0, 0]);

    let mut d = Dispute { disputor: addr(TAKER), escrow_state: a.escrow_state };
    assert_eq!(dispute(&mut d), Ok(()));
    assert!(d.escrow_state.dispute_status);

    let mut again = approval(d.escrow_state, fees);
    assert_eq!(approve(&mut again, 1).unwrap_err(), EscrowError::InvariantViolation);
    assert_eq!(again.escrow_state.initializer_amount, [0, 200, 0, 0, 0]);

    let mut settle = settlement(d.escrow_state, fees, TAKER);
    let s = resolve(&mut settle, 1).unwrap();
    assert_eq!(s.primary, 200);
    assert_eq!(settle.escrow_state.initializer_amount, [0, 0, 0, 0, 0]);
}

#[test]
fn approve_pays_each_milestone_once() {
    let fees = admin(10, 5);
    let mut a = approval(record([500, 0, 0, 0, 0], false), fees);
    let s = approve(&mut a, 0).unwrap();
    assert_eq!(s.primary, 450);
    assert_eq!(s.admin1_share, 7);
    assert_eq!(s.admin2_share, 42);
    assert_eq!(s.resolver_share, 0);
    let mut again = approval(a.escrow_state, fees);
    assert_eq!(approve(&mut again, 0).unwrap_err(), EscrowError::InvariantViolation);

    let mut disputed = a.escrow_state;
    disputed.dispute_status = true;
    let mut settle = settlement(disputed, fees, TAKER);
    assert_eq!(resolve(&mut settle, 0).unwrap_err(), EscrowError::InvariantViolation);
}

#[test]
fn approve_by_taker_is_unauthorized() {
    let mut a = approval(record([5, 0, 0, 0, 0], false), admin(0, 0));
    a.initializer = addr(TAKER);
    assert_eq!(approve(&mut a, 0).unwrap_err(), EscrowError::Unauthorized);
    assert_eq!(a.escrow_state.initializer_amount, [5, 0, 0, 0, 0]);
}

#[test]
fn approve_to_wrong_currency_is_mismatch() {
    let mut a = approval(record([5, 0, 0, 0, 0], false), admin(0, 0));
    a.taker_token_account.mint = addr(51);
    assert_eq!(approve(&mut a, 0).unwrap_err(), EscrowError::AccountMismatch);
    let mut b = approval(record([5, 0, 0, 0, 0], false), admin(0, 0));
    b.admin2_token_account.owner = addr(ADMIN1);
    assert_eq!(approve(&mut b, 0).unwrap_err(), EscrowError::AccountMismatch);
}

#[test]
fn approve_out_of_range_index_is_refused() {
    let mut a = approval(record([5, 5, 5, 5, 5], false), admin(0, 0));
    assert_eq!(approve(&mut a, 5).unwrap_err(), EscrowError::InvariantViolation);
    assert_eq!(approve(&mut a, u64::MAX).unwrap_err(), EscrowError::InvariantViolation);
    assert_eq!(approve(&mut a, 4).unwrap().primary, 5);
}

#[test]
fn approve_with_invalid_admin_fee_is_refused() {
    let mut a = approval(record([5, 0, 0, 0, 0], false), admin(101, 0));
    assert_eq!(approve(&mut a, 0).unwrap_err(), EscrowError::InvariantViolation);
}

#[test]
fn dispute_twice_is_accepted() {
    let mut d = Dispute { disputor: addr(INITIALIZER), escrow_state: record([1, 0, 0, 0, 0], false) };
    assert_eq!(dispute(&mut d), Ok(()));
    assert_eq!(dispute(&mut d), Ok(()));
    assert!(d.escrow_state.dispute_status);
    assert_eq!(d.escrow_state.initializer_amount, [1, 0, 0, 0, 0]);
}

#[test]
fn dispute_by_outsider_is_unauthorized() {
    let mut d = Dispute { disputor: addr(RESOLVER), escrow_state: record([1, 0, 0, 0, 0], false) };
    assert_eq!(dispute(&mut d), Err(EscrowError::Unauthorized));
    assert!(!d.escrow_state.dispute_status);
}

#[test]
fn dispute_flag_gates_settlement() {
    let fees = admin(0, 0);
    let mut a = approval(record([1, 0, 0, 0, 0], true), fees);
    assert_eq!(approve(&mut a, 0).unwrap_err(), EscrowError::InvariantViolation);
    let mut f = refunding(record([1, 0, 0, 0, 0], true), fees);
    assert_eq!(refund(&mut f).unwrap_err(), EscrowError::InvariantViolation);
    let mut s = settlement(record([1, 0, 0, 0, 0], false), fees, TAKER);
    assert_eq!(resolve(&mut s, 0).unwrap_err(), EscrowError::InvariantViolation);
}

#[test]
fn refund_clears_every_milestone() {
    let mut f = refunding(record([0, 50, 0, 7, 0], false), admin(20, 5));
    let s = refund(&mut f).unwrap();
    assert_eq!(s.primary, 45);
    assert_eq!(s.admin1_share, 1);
    assert_eq!(s.admin2_share, 9);
    assert_eq!(s.resolver_share, 0);
    assert_eq!(f.escrow_state.initializer_amount, [0, 0, 0, 0, 0]);
    assert!(!f.escrow_state.dispute_status);
}

#[test]
fn refund_by_initializer_is_unauthorized() {
    let mut f = refunding(record([3, 0, 0, 0, 0], false), admin(0, 0));
    f.taker = addr(INITIALIZER);
    assert_eq!(refund(&mut f).unwrap_err(), EscrowError::Unauthorized);
    assert_eq!(f.escrow_state.initializer_amount, [3, 0, 0, 0, 0]);
}

#[test]
fn resolve_may_pay_the_initializer() {
    let mut s = settlement(record([0, 0, 400, 0, 0], true), admin(10, 10), INITIALIZER);
    let split = resolve(&mut s, 2).unwrap();
    assert_eq!(split.primary, 320);
    assert_eq!(split.admin1_share, 6);
    assert_eq!(split.admin2_share, 34);
    assert_eq!(split.resolver_share, 40);
    assert_eq!(s.escrow_state.initializer_amount, [0, 0, 0, 0, 0]);
}

#[test]
fn resolve_to_outsider_is_mismatch() {
    let mut s = settlement(record([0, 0, 400, 0, 0], true), admin(0, 0), RESOLVER);
    assert_eq!(resolve(&mut s, 2).unwrap_err(), EscrowError::AccountMismatch);
}

#[test]
fn resolve_by_non_resolver_is_unauthorized() {
    let mut s = settlement(record([0, 0, 400, 0, 0], true), admin(0, 0), TAKER);
    s.resolver = addr(ADMIN1);
    assert_eq!(resolve(&mut s, 2).unwrap_err(), EscrowError::Unauthorized);
}

#[test]
fn resolve_with_fees_over_the_whole_is_refused() {
    let mut s = settlement(record([0, 0, 400, 0, 0], true), admin(60, 41), TAKER);
    assert_eq!(resolve(&mut s, 2).unwrap_err(), EscrowError::InvariantViolation);
}

#[test]
fn withdraw_for_resolve_takes_the_vault_and_closes() {
    let mut w = WithdrawForResolve {
        resolver: addr(RESOLVER),
        vault: account(99, 1234),
        resolver_token_account: account(RESOLVER, 0),
        escrow_state: Some(record([1000, 234, 0, 0, 0], false)),
        admin_state: admin(0, 0),
    };
    assert_eq!(withdraw_for_resolve(&mut w), Ok(1234));
    assert!(w.escrow_state.is_none());
    assert_eq!(withdraw_for_resolve(&mut w), Err(EscrowError::InvariantViolation));
}

#[test]
fn withdraw_for_resolve_by_admin_is_unauthorized() {
    let mut w = WithdrawForResolve {
        resolver: addr(ADMIN1),
        vault: account(99, 1234),
        resolver_token_account: account(ADMIN1, 0),
        escrow_state: Some(record([1000, 234, 0, 0, 0], false)),
        admin_state: admin(0, 0),
    };
    assert_eq!(withdraw_for_resolve(&mut w), Err(EscrowError::Unauthorized));
    assert!(w.escrow_state.is_some());
}

#[test]
fn split_formulas_truncate_each_share() {
    let s = split(1000, 3, 0, SplitMode::Cooperative);
    assert_eq!((s.primary, s.admin1_share, s.admin2_share, s.resolver_share), (970, 4, 25, 0));
    let t = split(1, 20, 0, SplitMode::Cooperative);
    assert_eq!((t.primary, t.admin1_share, t.admin2_share), (0, 0, 0));
    let big = split(u64::MAX, 100, 0, SplitMode::Cooperative);
    assert_eq!(big.primary, 0);
    assert_eq!(big.admin1_share, (u64::MAX as u128 * 1500 / 10000) as u64);
    assert_eq!(big.admin2_share, (u64::MAX as u128 * 8500 / 10000) as u64);
}

#[test]
fn split_never_exceeds_amount() {
    for amount in [0u64, 1, 7, 99, 100, 101, 999, 1000, 123457, u64::MAX] {
        for (a, r) in [(0u64, 0u64), (3, 0), (20, 5), (50, 50), (100, 0), (0, 100), (33, 33)] {
            let s = split(amount, a, r, SplitMode::Arbitrated);
            let total = s.primary as u128 + s.admin1_share as u128 + s.admin2_share as u128
                + s.resolver_share as u128;
            assert!(total <= amount as u128);
            assert!(amount as u128 - total <= 3);
        }
    }
}
