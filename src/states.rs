use vstd::prelude::*;
use crate::keys::Pubkey;

verus! {

/// The pool record: one per deployment.
#[derive(Clone, Copy, Debug, PartialEq, Eq)]
pub struct Config {
    /// Asset units the pool owns.
    pub net_deposits: u64,
    /// Flash-loan fee rate in hundredths of a percent.
    pub basis_points: u16,
    /// Fee revenue collected so far.
    pub collected_fees: u64,
    /// The share token class.
    pub lp_mint: Pubkey,
    /// The underlying asset token class.
    pub usdt_mint: Pubkey,
    /// Derivation tag the pool signs its own transfers with.
    pub bumps: u8,
}

/// What a successful operation did to the pool's accounting.
pub enum Effect {
    /// Asset units deposited by a liquidity provider.
    Deposited(u64),
    /// Asset units paid out to a liquidity provider.
    Withdrawn(u64),
    /// Principal lent out by a flash loan.
    Borrowed(u64),
    /// Principal and fee paid back by a flash loan.
    Repaid(u64, u64),
}

/// Change of `net_deposits` caused by an effect.
pub open spec fn net_delta(e: Effect) -> int {
    match e {
        Effect::Deposited(a) => a as int,
        Effect::Withdrawn(a) => -(a as int),
        Effect::Borrowed(a) => -(a as int),
        Effect::Repaid(a, _) => a as int,
    }
}

/// Change of `collected_fees` caused by an effect.
pub open spec fn fee_delta(e: Effect) -> int {
    match e {
        Effect::Repaid(_, f) => f as int,
        _ => 0,
    }
}

/// `after` is `before` with the effect `e` applied: the balances move by the
/// effect's deltas and the configuration stays as it was.
pub open spec fn steps_to(before: Config, e: Effect, after: Config) -> bool {
    &&& after.net_deposits as int == before.net_deposits as int + net_delta(e)
    &&& after.collected_fees as int == before.collected_fees as int + fee_delta(e)
    &&& after.basis_points == before.basis_points
    &&& after.lp_mint == before.lp_mint
    &&& after.usdt_mint == before.usdt_mint
    &&& after.bumps == before.bumps
}

} // verus!
