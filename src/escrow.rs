use vstd::prelude::*;

use crate::address::Address;
use crate::error::EscrowError;
use crate::fees::{
    fees_valid, is_split_of, lemma_split_within_amount, split, split_total, Split, SplitMode,
};
use crate::pda::{derived_address, find_program_address};
use crate::state::{
    held_by, is_held_by, milestone_total, total_of, AdminState, EscrowState, TokenAccount, MILESTONES,
};

verus! {

/// Seed of the program-controlled address that takes over every vault:
/// the ASCII bytes of "authority".
pub const AUTHORITY_SEED: [u8; 9] = [97, 117, 116, 104, 111, 114, 105, 116, 121];

/// Inputs of `initialize`: the two parties, the currency, the account the
/// deposit comes from, and the slot that will hold the new record.
#[derive(Clone, Copy, Debug)]
pub struct Initialize {
    /// The caller, who deposits the funds.
    pub initializer: Address,
    pub taker: Address,
    pub mint: Address,
    pub initializer_deposit_token_account: TokenAccount,
    /// The escrow record under the chosen seed, where one exists.
    pub escrow_state: Option<EscrowState>,
    pub escrow_state_bump: u8,
    pub vault_bump: u8,
}

/// What `initialize` asks the ledger to do: hand the vault to
/// `vault_authority`, then move `amount` from the depositor into it.
#[derive(Clone, Copy, Debug)]
pub struct Deposit {
    pub vault_authority: Address,
    pub amount: u64,
}

/// Why `initialize` refuses before any address is derived, if it does.
pub open spec fn initialize_error(ctx: Initialize, initializer_amount: [u64; 5]) -> Option<
    EscrowError,
> {
    if ctx.escrow_state is Some {
        Some(EscrowError::DuplicateRecord)
    } else if !held_by(ctx.initializer_deposit_token_account, ctx.initializer, ctx.mint) {
        Some(EscrowError::AccountMismatch)
    } else if ctx.initializer_deposit_token_account.amount < total_of(initializer_amount) {
        Some(EscrowError::InvariantViolation)
    } else {
        None
    }
}

/// The record that `initialize` opens: not disputed, every milestone funded
/// as asked.
pub open spec fn opened_escrow(
    ctx: Initialize,
    random_seed: u64,
    initializer_amount: [u64; 5],
) -> EscrowState {
    EscrowState {
        random_seed,
        initializer_key: ctx.initializer,
        taker: ctx.taker,
        initializer_amount,
        dispute_status: false,
        mint: ctx.mint,
        bump: ctx.escrow_state_bump,
        vault_bump: ctx.vault_bump,
    }
}

/// Opens an escrow record funded with `initializer_amount`, and says what
/// to deposit and whom the vault then answers to. The deposit is the sum
/// of the milestones, which the depositor's balance must cover.
pub fn initialize(
    ctx: &mut Initialize,
    program_id: &Address,
    random_seed: u64,
    initializer_amount: [u64; 5],
) -> (r: Result<Deposit, EscrowError>)
    ensures
        match initialize_error(*old(ctx), initializer_amount) {
            Some(e) => r == Err::<Deposit, EscrowError>(e) && *final(ctx) == *old(ctx),
            None => match derived_address(AUTHORITY_SEED@, program_id@) {
                None => r == Err::<Deposit, EscrowError>(EscrowError::AddressUnavailable)
                    && *final(ctx) == *old(ctx),
                Some((authority, _)) => match r {
                    Ok(d) => {
                        &&& d.vault_authority@ == authority
                        &&& d.amount == total_of(initializer_amount)
                        &&& d.amount == opened_escrow(
                            *old(ctx),
                            random_seed,
                            initializer_amount,
                        ).outstanding()
                        &&& final(ctx).escrow_state == Some(
                            opened_escrow(*old(ctx), random_seed, initializer_amount),
                        )
                        &&& *final(ctx) == (Initialize {
                            escrow_state: final(ctx).escrow_state,
                            ..*old(ctx)
                        })
                    },
                    Err(_) => false,
                },
            },
        },
{
    if ctx.escrow_state.is_some() {
        return Err(EscrowError::DuplicateRecord);
    }
    if !is_held_by(&ctx.initializer_deposit_token_account, &ctx.initializer, &ctx.mint) {
        return Err(EscrowError::AccountMismatch);
    }
    let amount = match milestone_total(&initializer_amount) {
        Some(t) => t,
        None => {
            return Err(EscrowError::InvariantViolation);
        },
    };
    if ctx.initializer_deposit_token_account.amount < amount {
        return Err(EscrowError::InvariantViolation);
    }
    let vault_authority = match find_program_address(AUTHORITY_SEED.as_slice(), program_id) {
        Some((a, _)) => a,
        None => {
            return Err(EscrowError::AddressUnavailable);
        },
    };
    ctx.escrow_state = Some(
        EscrowState {
            random_seed,
            initializer_key: ctx.initializer,
            taker: ctx.taker,
            initializer_amount,
            dispute_status: false,
            mint: ctx.mint,
            bump: ctx.escrow_state_bump,
            vault_bump: ctx.vault_bump,
        },
    );
    Ok(Deposit { vault_authority, amount })
}

/// Inputs of `dispute`: the caller and the record.
#[derive(Clone, Copy, Debug)]
pub struct Dispute {
    pub disputor: Address,
    pub escrow_state: EscrowState,
}

/// Whether `who` is one of the two parties of `s`.
pub open spec fn is_party(s: EscrowState, who: Address) -> bool {
    who@ == s.initializer_key@ || who@ == s.taker@
}

/// Why `dispute` refuses, if it does.
pub open spec fn dispute_error(ctx: Dispute) -> Option<EscrowError> {
    if is_party(ctx.escrow_state, ctx.disputor) {
        None
    } else {
        Some(EscrowError::Unauthorized)
    }
}

/// `s` with its dispute flag raised.
pub open spec fn disputed(s: EscrowState) -> EscrowState {
    EscrowState { dispute_status: true, ..s }
}

/// Raises the dispute flag, on behalf of either party. The flag is never
/// lowered again.
pub fn dispute(ctx: &mut Dispute) -> (r: Result<(), EscrowError>)
    ensures
        match dispute_error(*old(ctx)) {
            Some(e) => r == Err::<(), EscrowError>(e) && *final(ctx) == *old(ctx),
            None => r is Ok && *final(ctx) == (Dispute {
                escrow_state: disputed(old(ctx).escrow_state),
                ..*old(ctx)
            }),
        },
{
    if !ctx.disputor.same(&ctx.escrow_state.initializer_key) && !ctx.disputor.same(
        &ctx.escrow_state.taker,
    ) {
        return Err(EscrowError::Unauthorized);
    }
    ctx.escrow_state.dispute_status = true;
    Ok(())
}

/// Inputs of `withdraw_for_resolve`: the caller, the vault, the account
/// that receives its balance, and the two records.
#[derive(Clone, Copy, Debug)]
pub struct WithdrawForResolve {
    /// The caller; must be the resolver.
    pub resolver: Address,
    pub vault: TokenAccount,
    pub resolver_token_account: TokenAccount,
    /// The escrow record; gone once the vault is emptied.
    pub escrow_state: Option<EscrowState>,
    pub admin_state: AdminState,
}

/// Why `withdraw_for_resolve` refuses, if it does.
pub open spec fn withdraw_for_resolve_error(ctx: WithdrawForResolve) -> Option<EscrowError> {
    match ctx.escrow_state {
        None => Some(EscrowError::InvariantViolation),
        Some(s) => if ctx.resolver@ != ctx.admin_state.resolver@ {
            Some(EscrowError::Unauthorized)
        } else if !held_by(ctx.resolver_token_account, ctx.resolver, s.mint) {
            Some(EscrowError::AccountMismatch)
        } else {
            None
        },
    }
}

/// The resolver's way out: the whole vault balance goes to the resolver
/// and the record is closed, whatever its milestones and dispute flag. Only
/// the resolver named in the admin record may call it. Returns the amount
/// to move.
pub fn withdraw_for_resolve(ctx: &mut WithdrawForResolve) -> (r: Result<u64, EscrowError>)
    ensures
        match withdraw_for_resolve_error(*old(ctx)) {
            Some(e) => r == Err::<u64, EscrowError>(e) && *final(ctx) == *old(ctx),
            None => r == Ok::<u64, EscrowError>(old(ctx).vault.amount) && *final(ctx) == (
            WithdrawForResolve { escrow_state: None, ..*old(ctx) }),
        },
{
    let mint = match &ctx.escrow_state {
        None => {
            return Err(EscrowError::InvariantViolation);
        },
        Some(s) => s.mint,
    };
    if !ctx.resolver.same(&ctx.admin_state.resolver) {
        return Err(EscrowError::Unauthorized);
    }
    if !is_held_by(&ctx.resolver_token_account, &ctx.resolver, &mint) {
        return Err(EscrowError::AccountMismatch);
    }
    ctx.escrow_state = None;
    Ok(ctx.vault.amount)
}

/// Whether the two administrators' accounts belong to them and hold `mint`.
pub open spec fn admin_accounts_ok(
    admin1_account: TokenAccount,
    admin2_account: TokenAccount,
    admin: AdminState,
    mint: Address,
) -> bool {
    held_by(admin1_account, admin.admin1, mint) && held_by(admin2_account, admin.admin2, mint)
}

fn check_admin_accounts(
    admin1_account: &TokenAccount,
    admin2_account: &TokenAccount,
    admin: &AdminState,
    mint: &Address,
) -> (r: bool)
    ensures
        r == admin_accounts_ok(*admin1_account, *admin2_account, *admin, *mint),
{
    is_held_by(admin1_account, &admin.admin1, mint) && is_held_by(admin2_account, &admin.admin2, mint)
}

/// Whether `idx` names a milestone of `s` that still holds funds.
pub open spec fn milestone_unpaid(s: EscrowState, idx: u64) -> bool {
    idx < MILESTONES && s.initializer_amount@[idx as int] > 0
}

/// `after` is `before` with milestone `idx` emptied.
pub open spec fn milestone_cleared(before: EscrowState, after: EscrowState, idx: int) -> bool {
    &&& after.initializer_amount@ == before.initializer_amount@.update(idx, 0)
    &&& after == (EscrowState { initializer_amount: after.initializer_amount, ..before })
}

/// `after` is `before` with every milestone emptied.
pub open spec fn milestones_cleared(before: EscrowState, after: EscrowState) -> bool {
    &&& forall|i: int| 0 <= i < MILESTONES ==> after.initializer_amount@[i] == 0
    &&& after == (EscrowState { initializer_amount: after.initializer_amount, ..before })
}

/// Inputs of `approve`: the caller, the accounts paid, and the two records.
#[derive(Clone, Copy, Debug)]
pub struct Approve {
    /// The caller; must be the initializer.
    pub initializer: Address,
    pub taker_token_account: TokenAccount,
    pub admin1_token_account: TokenAccount,
    pub admin2_token_account: TokenAccount,
    pub escrow_state: EscrowState,
    pub admin_state: AdminState,
}

/// Whether the caller of `approve` is the initializer.
pub open spec fn approve_authorized(ctx: Approve) -> bool {
    ctx.initializer@ == ctx.escrow_state.initializer_key@
}

/// Whether the accounts handed to `approve` are the right ones.
pub open spec fn approve_accounts_ok(ctx: Approve) -> bool {
    &&& held_by(ctx.taker_token_account, ctx.escrow_state.taker, ctx.escrow_state.mint)
    &&& admin_accounts_ok(
        ctx.admin1_token_account,
        ctx.admin2_token_account,
        ctx.admin_state,
        ctx.escrow_state.mint,
    )
}

/// Why `approve` refuses, if it does.
pub open spec fn approve_error(ctx: Approve, milestone_idx: u64) -> Option<EscrowError> {
    if !approve_authorized(ctx) {
        Some(EscrowError::Unauthorized)
    } else if !approve_accounts_ok(ctx) {
        Some(EscrowError::AccountMismatch)
    } else if !milestone_unpaid(ctx.escrow_state, milestone_idx) || ctx.escrow_state.dispute_status
        || !fees_valid(ctx.admin_state.admin_fee, ctx.admin_state.resolver_fee, SplitMode::Cooperative) {
        Some(EscrowError::InvariantViolation)
    } else {
        None
    }
}

/// The initializer releases one milestone to the taker, less the admin
/// fee. Returns the split to pay out; the milestone is then empty.
pub fn approve(ctx: &mut Approve, milestone_idx: u64) -> (r: Result<Split, EscrowError>)
    ensures
        match approve_error(*old(ctx), milestone_idx) {
            Some(e) => r == Err::<Split, EscrowError>(e) && *final(ctx) == *old(ctx),
            None => match r {
                Ok(s) => {
                    &&& is_split_of(
                        s,
                        old(ctx).escrow_state.initializer_amount@[milestone_idx as int] as int,
                        old(ctx).admin_state.admin_fee,
                        old(ctx).admin_state.resolver_fee,
                        SplitMode::Cooperative,
                    )
                    &&& split_total(s) <= old(ctx).escrow_state.initializer_amount@[milestone_idx as int]
                    &&& milestone_cleared(
                        old(ctx).escrow_state,
                        final(ctx).escrow_state,
                        milestone_idx as int,
                    )
                    &&& *final(ctx) == (Approve { escrow_state: final(ctx).escrow_state, ..*old(ctx) })
                },
                Err(_) => false,
            },
        },
{
    if !ctx.initializer.same(&ctx.escrow_state.initializer_key) {
        return Err(EscrowError::Unauthorized);
    }
    if !is_held_by(&ctx.taker_token_account, &ctx.escrow_state.taker, &ctx.escrow_state.mint)
        || !check_admin_accounts(
        &ctx.admin1_token_account,
        &ctx.admin2_token_account,
        &ctx.admin_state,
        &ctx.escrow_state.mint,
    ) {
        return Err(EscrowError::AccountMismatch);
    }
    if milestone_idx >= MILESTONES as u64 {
        return Err(EscrowError::InvariantViolation);
    }
    let idx = milestone_idx as usize;
    let amount = ctx.escrow_state.initializer_amount[idx];
    if amount == 0 || ctx.escrow_state.dispute_status || ctx.admin_state.admin_fee > 100 {
        return Err(EscrowError::InvariantViolation);
    }
    let s = split(
        amount,
        ctx.admin_state.admin_fee,
        ctx.admin_state.resolver_fee,
        SplitMode::Cooperative,
    );
    proof {
        lemma_split_within_amount(
            s,
            amount,
            ctx.admin_state.admin_fee,
            ctx.admin_state.resolver_fee,
            SplitMode::Cooperative,
        );
    }
    ctx.escrow_state.initializer_amount[idx] = 0;
    Ok(s)
}

/// Inputs of `refund`: the caller, the accounts paid, and the two records.
#[derive(Clone, Copy, Debug)]
pub struct Refund {
    /// The caller; must be the taker.
    pub taker: Address,
    pub initializer_deposit_token_account: TokenAccount,
    pub admin1_token_account: TokenAccount,
    pub admin2_token_account: TokenAccount,
    pub escrow_state: EscrowState,
    pub admin_state: AdminState,
}

/// Whether the caller of `refund` is the taker.
pub open spec fn refund_authorized(ctx: Refund) -> bool {
    ctx.taker@ == ctx.escrow_state.taker@
}

/// Whether the accounts handed to `refund` are the right ones.
pub open spec fn refund_accounts_ok(ctx: Refund) -> bool {
    &&& held_by(
        ctx.initializer_deposit_token_account,
        ctx.escrow_state.initializer_key,
        ctx.escrow_state.mint,
    )
    &&& admin_accounts_ok(
        ctx.admin1_token_account,
        ctx.admin2_token_account,
        ctx.admin_state,
        ctx.escrow_state.mint,
    )
}

/// Why `refund` refuses, if it does.
pub open spec fn refund_error(ctx: Refund) -> Option<EscrowError> {
    if !refund_authorized(ctx) {
        Some(EscrowError::Unauthorized)
    } else if !refund_accounts_ok(ctx) {
        Some(EscrowError::AccountMismatch)
    } else if ctx.escrow_state.dispute_status || !fees_valid(
        ctx.admin_state.admin_fee,
        ctx.admin_state.resolver_fee,
        SplitMode::Cooperative,
    ) || ctx.escrow_state.outstanding() > u64::MAX {
        Some(EscrowError::InvariantViolation)
    } else {
        None
    }
}

/// The taker gives up: everything still held goes back to the initializer,
/// less the admin fee. Returns the split to pay out; every milestone is then
/// empty.
pub fn refund(ctx: &mut Refund) -> (r: Result<Split, EscrowError>)
    ensures
        match refund_error(*old(ctx)) {
            Some(e) => r == Err::<Split, EscrowError>(e) && *final(ctx) == *old(ctx),
            None => match r {
                Ok(s) => {
                    &&& is_split_of(
                        s,
                        old(ctx).escrow_state.outstanding(),
                        old(ctx).admin_state.admin_fee,
                        old(ctx).admin_state.resolver_fee,
                        SplitMode::Cooperative,
                    )
                    &&& split_total(s) <= old(ctx).escrow_state.outstanding()
                    &&& milestones_cleared(old(ctx).escrow_state, final(ctx).escrow_state)
                    &&& *final(ctx) == (Refund { escrow_state: final(ctx).escrow_state, ..*old(ctx) })
                },
                Err(_) => false,
            },
        },
{
    if !ctx.taker.same(&ctx.escrow_state.taker) {
        return Err(EscrowError::Unauthorized);
    }
    if !is_held_by(
        &ctx.initializer_deposit_token_account,
        &ctx.escrow_state.initializer_key,
        &ctx.escrow_state.mint,
    ) || !check_admin_accounts(
        &ctx.admin1_token_account,
        &ctx.admin2_token_account,
        &ctx.admin_state,
        &ctx.escrow_state.mint,
    ) {
        return Err(EscrowError::AccountMismatch);
    }
    if ctx.escrow_state.dispute_status || ctx.admin_state.admin_fee > 100 {
        return Err(EscrowError::InvariantViolation);
    }
    let amount = match milestone_total(&ctx.escrow_state.initializer_amount) {
        Some(t) => t,
        None => {
            return Err(EscrowError::InvariantViolation);
        },
    };
    let s = split(
        amount,
        ctx.admin_state.admin_fee,
        ctx.admin_state.resolver_fee,
        SplitMode::Cooperative,
    );
    proof {
        lemma_split_within_amount(
            s,
            amount,
            ctx.admin_state.admin_fee,
            ctx.admin_state.resolver_fee,
            SplitMode::Cooperative,
        );
    }
    ctx.escrow_state.initializer_amount = [0, 0, 0, 0, 0];
    Ok(s)
}

/// Inputs of `resolve`: the caller, the arbitrated recipient's account,
/// the fee accounts, and the two records.
#[derive(Clone, Copy, Debug)]
pub struct Resolve {
    /// The caller; must be the resolver.
    pub resolver: Address,
    /// The account of the party the resolver rules for: either party's.
    pub taker_token_account: TokenAccount,
    pub admin1_token_account: TokenAccount,
    pub admin2_token_account: TokenAccount,
    pub resolver_token_account: TokenAccount,
    pub escrow_state: EscrowState,
    pub admin_state: AdminState,
}

/// Whether the caller of `resolve` is the resolver.
pub open spec fn resolve_authorized(ctx: Resolve) -> bool {
    ctx.resolver@ == ctx.admin_state.resolver@
}

/// Whether the accounts handed to `resolve` are the right ones: the
/// recipient is one of the two parties, the others belong to whom they pay.
pub open spec fn resolve_accounts_ok(ctx: Resolve) -> bool {
    &&& is_party(ctx.escrow_state, ctx.taker_token_account.owner)
    &&& ctx.taker_token_account.mint@ == ctx.escrow_state.mint@
    &&& admin_accounts_ok(
        ctx.admin1_token_account,
        ctx.admin2_token_account,
        ctx.admin_state,
        ctx.escrow_state.mint,
    )
    &&& held_by(ctx.resolver_token_account, ctx.resolver, ctx.escrow_state.mint)
}

/// Why `resolve` refuses, if it does.
pub open spec fn resolve_error(ctx: Resolve, milestone_idx: u64) -> Option<EscrowError> {
    if !resolve_authorized(ctx) {
        Some(EscrowError::Unauthorized)
    } else if !resolve_accounts_ok(ctx) {
        Some(EscrowError::AccountMismatch)
    } else if !milestone_unpaid(ctx.escrow_state, milestone_idx) || !ctx.escrow_state.dispute_status
        || !fees_valid(ctx.admin_state.admin_fee, ctx.admin_state.resolver_fee, SplitMode::Arbitrated) {
        Some(EscrowError::InvariantViolation)
    } else {
        None
    }
}

/// The resolver settles one milestone of a disputed record in favour of
/// either party, taking the admin fee and the resolver fee. Returns the
/// split to pay out; the milestone is then empty.
pub fn resolve(ctx: &mut Resolve, milestone_idx: u64) -> (r: Result<Split, EscrowError>)
    ensures
        match resolve_error(*old(ctx), milestone_idx) {
            Some(e) => r == Err::<Split, EscrowError>(e) && *final(ctx) == *old(ctx),
            None => match r {
                Ok(s) => {
                    &&& is_split_of(
                        s,
                        old(ctx).escrow_state.initializer_amount@[milestone_idx as int] as int,
                        old(ctx).admin_state.admin_fee,
                        old(ctx).admin_state.resolver_fee,
                        SplitMode::Arbitrated,
                    )
                    &&& split_total(s) <= old(ctx).escrow_state.initializer_amount@[milestone_idx as int]
                    &&& milestone_cleared(
                        old(ctx).escrow_state,
                        final(ctx).escrow_state,
                        milestone_idx as int,
                    )
                    &&& *final(ctx) == (Resolve { escrow_state: final(ctx).escrow_state, ..*old(ctx) })
                },
                Err(_) => false,
            },
        },
{
    if !ctx.resolver.same(&ctx.admin_state.resolver) {
        return Err(EscrowError::Unauthorized);
    }
    let recipient = &ctx.taker_token_account;
    if !(recipient.owner.same(&ctx.escrow_state.initializer_key) || recipient.owner.same(
        &ctx.escrow_state.taker,
    )) || !recipient.mint.same(&ctx.escrow_state.mint) || !check_admin_accounts(
        &ctx.admin1_token_account,
        &ctx.admin2_token_account,
        &ctx.admin_state,
        &ctx.escrow_state.mint,
    ) || !is_held_by(&ctx.resolver_token_account, &ctx.resolver, &ctx.escrow_state.mint) {
        return Err(EscrowError::AccountMismatch);
    }
    if milestone_idx >= MILESTONES as u64 {
        return Err(EscrowError::InvariantViolation);
    }
    let idx = milestone_idx as usize;
    let amount = ctx.escrow_state.initializer_amount[idx];
    if amount == 0 || !ctx.escrow_state.dispute_status || ctx.admin_state.admin_fee > 100
        || ctx.admin_state.resolver_fee > 100 - ctx.admin_state.admin_fee {
        return Err(EscrowError::InvariantViolation);
    }
    let s = split(
        amount,
        ctx.admin_state.admin_fee,
        ctx.admin_state.resolver_fee,
        SplitMode::Arbitrated,
    );
    proof {
        lemma_split_within_amount(
            s,
            amount,
            ctx.admin_state.admin_fee,
            ctx.admin_state.resolver_fee,
            SplitMode::Arbitrated,
        );
    }
    ctx.escrow_state.initializer_amount[idx] = 0;
    Ok(s)
}

} // verus!
