use vstd::prelude::*;

verus! {

/// Basis points in one whole: a fee rate of this many basis points is 100%.
pub const BASIS_POINTS_DENOMINATOR: u128 = 10000;

/// Shares owed for depositing `amount` into a pool with `total_supply` shares
/// outstanding and `net_deposits` asset units: 1:1 for the first deposit,
/// otherwise proportional to the pre-deposit pool, rounded down.
/// `None` when the quotient is undefined or does not fit in 64 bits.
pub open spec fn deposit_shares(amount: u64, total_supply: u64, net_deposits: u64) -> Option<u64> {
    if total_supply == 0 {
        Some(amount)
    } else if net_deposits == 0 {
        None
    } else if amount as int * total_supply as int / net_deposits as int > u64::MAX {
        None
    } else {
        Some((amount as int * total_supply as int / net_deposits as int) as u64)
    }
}

/// Asset units owed for redeeming `lp_amount` shares, rounded down.
pub open spec fn withdraw_payout(lp_amount: u64, total_supply: u64, net_deposits: u64) -> int
    recommends
        total_supply > 0,
{
    lp_amount as int * net_deposits as int / total_supply as int
}

/// Fee owed on a flash loan of `amount` at `basis_points`, rounded down;
/// `None` when it does not fit in 64 bits.
pub open spec fn flash_fee(amount: u64, basis_points: u16) -> Option<u64> {
    if amount as int * basis_points as int / 10000 > u64::MAX {
        None
    } else {
        Some((amount as int * basis_points as int / 10000) as u64)
    }
}

proof fn lemma_wide_product(a: u64, b: u64)
    ensures
        0 <= a as int * b as int <= u64::MAX as int * u64::MAX as int,
        u64::MAX as int * u64::MAX as int <= u128::MAX,
{
    assert(0 <= a as int * b as int <= u64::MAX as int * u64::MAX as int) by (nonlinear_arith);
}

/// Shares minted for a deposit, computed in 128-bit arithmetic.
pub fn shares_for_deposit(amount: u64, total_supply: u64, net_deposits: u64) -> (r: Option<u64>)
    ensures
        r == deposit_shares(amount, total_supply, net_deposits),
{
    if total_supply == 0 {
        return Some(amount);
    }
    if net_deposits == 0 {
        return None;
    }
    proof {
        lemma_wide_product(amount, total_supply);
    }
    let product: u128 = amount as u128 * total_supply as u128;
    let quotient: u128 = product / net_deposits as u128;
    if quotient > u64::MAX as u128 {
        None
    } else {
        Some(quotient as u64)
    }
}

/// Asset units paid out for redeeming shares, computed in 128-bit arithmetic.
pub fn payout_for_withdraw(lp_amount: u64, total_supply: u64, net_deposits: u64) -> (r: u128)
    requires
        total_supply > 0,
    ensures
        r == withdraw_payout(lp_amount, total_supply, net_deposits),
{
    proof {
        lemma_wide_product(lp_amount, net_deposits);
    }
    let product: u128 = lp_amount as u128 * net_deposits as u128;
    product / total_supply as u128
}

/// Flash-loan fee, computed in 128-bit arithmetic and narrowed with a check.
pub fn fee_for(amount: u64, basis_points: u16) -> (r: Option<u64>)
    ensures
        r == flash_fee(amount, basis_points),
{
    proof {
        lemma_wide_product(amount, basis_points as u64);
    }
    let product: u128 = amount as u128 * basis_points as u128;
    let fee: u128 = product / BASIS_POINTS_DENOMINATOR;
    if fee > u64::MAX as u128 {
        None
    } else {
        Some(fee as u64)
    }
}

} // verus!
