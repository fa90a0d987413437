use vstd::prelude::*;
use crate::keys::Pubkey;

verus! {

/// Record of a deposit; the host moves `amount` into the pool and mints
/// `shares_minted` to `user`.
#[derive(Clone, Copy, Debug, PartialEq, Eq)]
pub struct DepositEvent {
    pub user: Pubkey,
    pub amount: u64,
    pub shares_minted: u64,
}

/// Record of a flash loan; the host moves `amount` from the pool to `user`.
#[derive(Clone, Copy, Debug, PartialEq, Eq)]
pub struct BorrowEvent {
    pub user: Pubkey,
    pub amount: u64,
}

/// Record of a flash-loan repayment; the host moves `amount`, principal and
/// fee, from `user` into the pool.
#[derive(Clone, Copy, Debug, PartialEq, Eq)]
pub struct RepayEvent {
    pub user: Pubkey,
    pub amount: u64,
}

/// Record of a withdrawal; the host burns `lp_amount` shares of `user`, then
/// moves `usdt_amount` from the pool to `user`.
#[derive(Clone, Copy, Debug, PartialEq, Eq)]
pub struct WithdrawEvent {
    pub user: Pubkey,
    pub lp_amount: u64,
    pub usdt_amount: u64,
}

} // verus!
