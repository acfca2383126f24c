use vstd::prelude::*;

use crate::address::{Address, ADDRESS_LEN};

verus! {

/// Number of milestone slots of an escrow record.
pub const MILESTONES: usize = 5;

/// Length of the type tag that precedes each stored record.
pub const DISCRIMINATOR_LEN: usize = 8;

/// The governance record: two administrators, the resolver, and the fee
/// percentages taken from every payout.
#[derive(Clone, Copy, Debug)]
pub struct AdminState {
    pub bump: u8,
    pub admin_fee: u64,
    pub resolver_fee: u64,
    pub admin1: Address,
    pub admin2: Address,
    pub resolver: Address,
}

impl AdminState {
    /// Bytes taken by a stored admin record, type tag included.
    pub fn space() -> (r: usize)
        ensures
            r == DISCRIMINATOR_LEN + 1 + 8 + 8 + 3 * ADDRESS_LEN,
    {
        DISCRIMINATOR_LEN + 1 + 8 + 8 + 3 * ADDRESS_LEN
    }
}

/// One escrow agreement: its parties, what is still owed per milestone,
/// and the dispute flag.
#[derive(Clone, Copy, Debug)]
pub struct EscrowState {
    pub random_seed: u64,
    pub initializer_key: Address,
    pub taker: Address,
    /// What each milestone still holds; zero once paid or when never funded.
    pub initializer_amount: [u64; 5],
    pub dispute_status: bool,
    /// The currency the vault holds.
    pub mint: Address,
    pub bump: u8,
    pub vault_bump: u8,
}

/// Sum of the milestone slots.
pub open spec fn total_of(amounts: [u64; 5]) -> int {
    amounts@[0] + amounts@[1] + amounts@[2] + amounts@[3] + amounts@[4]
}

impl EscrowState {
    /// Bytes taken by a stored escrow record, type tag included.
    pub fn space() -> (r: usize)
        ensures
            r == DISCRIMINATOR_LEN + 8 + 3 * ADDRESS_LEN + MILESTONES * 8 + 1 + 1 + 1,
    {
        DISCRIMINATOR_LEN + 8 + 3 * ADDRESS_LEN + MILESTONES * 8 + 1 + 1 + 1
    }

    /// Everything the record still holds for its milestones.
    pub open spec fn outstanding(&self) -> int {
        total_of(self.initializer_amount)
    }
}

/// The sum of `amounts`, where it fits in a `u64`.
pub fn milestone_total(amounts: &[u64; 5]) -> (r: Option<u64>)
    ensures
        match r {
            Some(t) => t == total_of(*amounts),
            None => total_of(*amounts) > u64::MAX,
        },
{
    let t: u128 = amounts[0] as u128 + amounts[1] as u128 + amounts[2] as u128 + amounts[3] as u128
        + amounts[4] as u128;
    if t > u64::MAX as u128 {
        None
    } else {
        Some(t as u64)
    }
}

/// What the engine reads of a token account: who controls it, which
/// currency it holds, and its balance.
#[derive(Clone, Copy, Debug)]
pub struct TokenAccount {
    pub owner: Address,
    pub mint: Address,
    pub amount: u64,
}

/// Whether `account` is controlled by `owner` and holds `mint`.
pub open spec fn held_by(account: TokenAccount, owner: Address, mint: Address) -> bool {
    account.owner@ == owner@ && account.mint@ == mint@
}

/// Decides `held_by`.
pub fn is_held_by(account: &TokenAccount, owner: &Address, mint: &Address) -> (r: bool)
    ensures
        r == held_by(*account, *owner, *mint),
{
    account.owner.same(owner) && account.mint.same(mint)
}

} // verus!
