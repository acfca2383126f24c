use vstd::prelude::*;

verus! {

/// Which payout rule applies: the cooperative one (`approve`, `refund`),
/// or the arbitrated one (`resolve`), which also pays the resolver.
#[derive(Clone, Copy, Debug, PartialEq, Eq, Structural)]
pub enum SplitMode {
    Cooperative,
    Arbitrated,
}

/// How one payout is shared out among its recipients.
#[derive(Clone, Copy, Debug, PartialEq, Eq, Structural)]
pub struct Split {
    /// What goes to the party being paid (taker, initializer, or the
    /// arbitrated recipient).
    pub primary: u64,
    pub admin1_share: u64,
    pub admin2_share: u64,
    pub resolver_share: u64,
}

/// Whether the fee percentages admit a split in `mode`: the percentages
/// that are taken off must not exceed the whole.
pub open spec fn fees_valid(admin_fee: u64, resolver_fee: u64, mode: SplitMode) -> bool {
    match mode {
        SplitMode::Cooperative => admin_fee <= 100,
        SplitMode::Arbitrated => admin_fee + resolver_fee <= 100,
    }
}

/// Percentage of the amount that goes to the party being paid.
pub open spec fn primary_percent(admin_fee: u64, resolver_fee: u64, mode: SplitMode) -> int {
    match mode {
        SplitMode::Cooperative => 100 - admin_fee,
        SplitMode::Arbitrated => 100 - admin_fee - resolver_fee,
    }
}

/// The split of `amount`: each share is truncated on its own, with the
/// multiplications done before the division. The admin fee pool goes 15/85
/// to the first and the second administrator.
pub open spec fn is_split_of(
    s: Split,
    amount: int,
    admin_fee: u64,
    resolver_fee: u64,
    mode: SplitMode,
) -> bool {
    &&& s.primary == amount * primary_percent(admin_fee, resolver_fee, mode) / 100
    &&& s.admin1_share == amount * admin_fee * 15 / 10000
    &&& s.admin2_share == amount * admin_fee * 85 / 10000
    &&& s.resolver_share == match mode {
        SplitMode::Cooperative => 0,
        SplitMode::Arbitrated => amount * resolver_fee / 100,
    }
}

/// Total of all shares of a split.
pub open spec fn split_total(s: Split) -> int {
    s.primary + s.admin1_share + s.admin2_share + s.resolver_share
}

proof fn lemma_part_le(x: int, k: int, d: int)
    requires
        0 <= x,
        0 <= k <= d,
        0 < d,
    ensures
        0 <= x * k / d <= x,
{
    assert(0 <= x * k <= x * d) by (nonlinear_arith)
        requires
            0 <= x,
            0 <= k <= d,
    ;
    vstd::arithmetic::div_mod::lemma_div_is_ordered(x * k, x * d, d);
    vstd::arithmetic::div_mod::lemma_div_is_ordered(0, x * k, d);
    vstd::arithmetic::div_mod::lemma_div_by_multiple(x, d);
}

/// Splits `amount` by the fee percentages. Nothing is rounded up: the
/// dust lost to truncation stays with nobody.
pub fn split(amount: u64, admin_fee: u64, resolver_fee: u64, mode: SplitMode) -> (r: Split)
    requires
        fees_valid(admin_fee, resolver_fee, mode),
    ensures
        is_split_of(r, amount as int, admin_fee, resolver_fee, mode),
{
    let a = amount as u128;
    let percent: u64 = match mode {
        SplitMode::Cooperative => 100 - admin_fee,
        SplitMode::Arbitrated => 100 - admin_fee - resolver_fee,
    };
    proof {
        lemma_part_le(amount as int, percent as int, 100);
        lemma_part_le(amount as int, admin_fee * 15, 10000);
        lemma_part_le(amount as int, admin_fee * 85, 10000);
        assert(a * (percent as u128) <= a * 100) by (nonlinear_arith)
            requires
                percent <= 100,
        ;
        assert(a * (admin_fee as u128) <= a * 100) by (nonlinear_arith)
            requires
                admin_fee <= 100,
        ;
        assert(amount * admin_fee * 15 == amount * (admin_fee * 15)) by (nonlinear_arith);
        assert(amount * admin_fee * 85 == amount * (admin_fee * 85)) by (nonlinear_arith);
    }
    let primary = (a * (percent as u128) / 100) as u64;
    let admin1_share = (a * (admin_fee as u128) * 15 / 10000) as u64;
    let admin2_share = (a * (admin_fee as u128) * 85 / 10000) as u64;
    let resolver_share: u64 = match mode {
        SplitMode::Cooperative => 0,
        SplitMode::Arbitrated => {
            proof {
                lemma_part_le(amount as int, resolver_fee as int, 100);
                assert(a * (resolver_fee as u128) <= a * 100) by (nonlinear_arith)
                    requires
                        resolver_fee <= 100,
                ;
            }
            (a * (resolver_fee as u128) / 100) as u64
        },
    };
    Split { primary, admin1_share, admin2_share, resolver_share }
}

/// No payout hands out more than the amount it splits, and truncation
/// loses at most three units of it.
pub proof fn lemma_split_within_amount(
    s: Split,
    amount: u64,
    admin_fee: u64,
    resolver_fee: u64,
    mode: SplitMode,
)
    requires
        fees_valid(admin_fee, resolver_fee, mode),
        is_split_of(s, amount as int, admin_fee, resolver_fee, mode),
    ensures
        split_total(s) <= amount,
        amount - split_total(s) <= 3,
{
    let p = primary_percent(admin_fee, resolver_fee, mode);
    let rf: int = match mode {
        SplitMode::Cooperative => 0,
        SplitMode::Arbitrated => resolver_fee as int,
    };
    let x1 = amount * p;
    let x2 = amount * admin_fee * 15;
    let x3 = amount * admin_fee * 85;
    let x4 = amount * rf;
    assert(100 * x1 + x2 + x3 + 100 * x4 == 10000 * amount) by (nonlinear_arith)
        requires
            p == 100 - admin_fee - rf,
            x1 == amount * p,
            x2 == amount * admin_fee * 15,
            x3 == amount * admin_fee * 85,
            x4 == amount * rf,
    ;
    assert(x4 / 100 == s.resolver_share) by {
        if mode == SplitMode::Cooperative {
            assert(x4 == 0);
        }
    }
    vstd::arithmetic::div_mod::lemma_fundamental_div_mod(x1, 100);
    vstd::arithmetic::div_mod::lemma_fundamental_div_mod(x2, 10000);
    vstd::arithmetic::div_mod::lemma_fundamental_div_mod(x3, 10000);
    vstd::arithmetic::div_mod::lemma_fundamental_div_mod(x4, 100);
    vstd::arithmetic::div_mod::lemma_remainder(x1, 100);
    vstd::arithmetic::div_mod::lemma_remainder(x2, 10000);
    vstd::arithmetic::div_mod::lemma_remainder(x3, 10000);
    vstd::arithmetic::div_mod::lemma_remainder(x4, 100);
}

} // verus!
