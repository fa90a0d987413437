use vstd::prelude::*;
use crate::bundle::{
    borrow_amount_of, instruction_check, read_u64_le, verify_instruction_at, Instruction,
    InstructionKind,
};
use crate::emits::{BorrowEvent, DepositEvent, RepayEvent, WithdrawEvent};
use crate::errors::ProtocolError;
use crate::keys::Pubkey;
use crate::math::{
    deposit_shares, fee_for, flash_fee, payout_for_withdraw, shares_for_deposit, withdraw_payout,
};
use crate::states::{steps_to, Config, Effect};

verus! {

/// A token class as read at the start of the operation.
#[derive(Clone, Copy, Debug, PartialEq, Eq)]
pub struct Mint {
    pub key: Pubkey,
    pub supply: u64,
}

/// A token account as read at the start of the operation.
#[derive(Clone, Copy, Debug, PartialEq, Eq)]
pub struct TokenAccount {
    pub key: Pubkey,
    pub amount: u64,
}

/// Accounts of the operation that creates the pool record.
#[derive(Clone, Copy, Debug)]
pub struct Initialize {
    pub protocol: Pubkey,
    /// The pool record, `None` while it does not exist.
    pub config: Option<Config>,
    pub lp_mint: Mint,
    pub usdt_mint: Mint,
}

/// Accounts of a deposit.
#[derive(Clone, Copy, Debug)]
pub struct Deposit {
    pub liquidator: Pubkey,
    pub lp_mint: Mint,
    pub usdt_mint: Mint,
    pub config: Config,
    pub lp_ata: TokenAccount,
    pub liquidator_usdt_ata: TokenAccount,
    pub usdt_protocol_ata: TokenAccount,
}

/// Accounts of a withdrawal.
#[derive(Clone, Copy, Debug)]
pub struct Withdraw {
    pub lp: Pubkey,
    pub lp_mint: Mint,
    pub usdt_mint: Mint,
    pub config: Config,
    pub lp_ata: TokenAccount,
    pub lp_usdt_ata: TokenAccount,
    pub usdt_protocol_ata: TokenAccount,
}

/// Accounts of a flash-loan borrow, with the bundle it runs in.
#[derive(Clone, Debug)]
pub struct Borrow {
    pub borrower: Pubkey,
    pub config: Config,
    pub mint: Mint,
    pub borrower_ata: TokenAccount,
    pub protocol_ata: TokenAccount,
    /// The instructions of the current atomic bundle, in order.
    pub instructions: Vec<Instruction>,
    /// The program this operation runs as.
    pub program_id: Pubkey,
}

/// Accounts of a flash-loan repayment, with the bundle it runs in.
#[derive(Clone, Debug)]
pub struct Repay {
    pub borrower: Pubkey,
    pub config: Config,
    pub usdt_mint: Mint,
    pub borrower_ata: TokenAccount,
    pub protocol_ata: TokenAccount,
    /// The instructions of the current atomic bundle, in order.
    pub instructions: Vec<Instruction>,
    /// The program this operation runs as.
    pub program_id: Pubkey,
}

/// Shares a deposit mints, or why it is refused.
pub open spec fn deposit_outcome(ctx: Deposit, amount: u64) -> Result<u64, ProtocolError> {
    let shares = deposit_shares(amount, ctx.lp_mint.supply, ctx.config.net_deposits);
    if ctx.lp_mint.key != ctx.config.lp_mint || ctx.usdt_mint.key != ctx.config.usdt_mint {
        Err(ProtocolError::InvalidMint)
    } else if amount == 0 {
        Err(ProtocolError::InvalidAmount)
    } else if ctx.liquidator_usdt_ata.amount < amount {
        Err(ProtocolError::InsufficientFunds)
    } else if shares is None {
        Err(ProtocolError::ArithmeticOverflow)
    } else if ctx.config.net_deposits + amount > u64::MAX {
        Err(ProtocolError::ArithmeticOverflow)
    } else {
        Ok(shares->0)
    }
}

/// Asset units a withdrawal pays, or why it is refused.
pub open spec fn withdraw_outcome(ctx: Withdraw, lp_amount: u64) -> Result<u64, ProtocolError> {
    let payout = withdraw_payout(lp_amount, ctx.lp_mint.supply, ctx.config.net_deposits);
    if ctx.lp_mint.key != ctx.config.lp_mint || ctx.usdt_mint.key != ctx.config.usdt_mint {
        Err(ProtocolError::InvalidMint)
    } else if lp_amount == 0 {
        Err(ProtocolError::InvalidAmount)
    } else if ctx.lp_ata.amount < lp_amount {
        Err(ProtocolError::InsufficientFunds)
    } else if ctx.lp_mint.supply == 0 {
        Err(ProtocolError::EmptyPool)
    } else if payout > ctx.config.net_deposits {
        Err(ProtocolError::ArithmeticUnderflow)
    } else {
        Ok(payout as u64)
    }
}

/// Whether a borrow of `amount` goes through, or why it is refused: the
/// bundle's last instruction must be this program's repay, for the same
/// asset accounts.
pub open spec fn borrow_outcome(ctx: Borrow, amount: u64) -> Result<(), ProtocolError> {
    if ctx.mint.key != ctx.config.usdt_mint {
        Err(ProtocolError::InvalidMint)
    } else if amount == 0 {
        Err(ProtocolError::InvalidAmount)
    } else if ctx.config.net_deposits < amount {
        Err(ProtocolError::InsufficientFunds)
    } else {
        instruction_check(
            ctx.instructions@,
            ctx.instructions@.len() - 1,
            ctx.program_id,
            InstructionKind::Repay,
            ctx.borrower_ata.key,
            ctx.protocol_ata.key,
        )
    }
}

/// The principal a repay reads from the bundle's first instruction.
pub open spec fn repay_principal(ctx: Repay) -> u64 {
    borrow_amount_of(ctx.instructions@[0].data@) as u64
}

/// Principal and fee a repay collects, or why it is refused: the bundle's
/// first instruction must be this program's borrow, for the same asset
/// accounts.
pub open spec fn repay_outcome(ctx: Repay) -> Result<(u64, u64), ProtocolError> {
    let check = instruction_check(
        ctx.instructions@,
        0,
        ctx.program_id,
        InstructionKind::Borrow,
        ctx.borrower_ata.key,
        ctx.protocol_ata.key,
    );
    let principal = repay_principal(ctx);
    let fee = flash_fee(principal, ctx.config.basis_points);
    if ctx.usdt_mint.key != ctx.config.usdt_mint {
        Err(ProtocolError::InvalidMint)
    } else if check is Err {
        Err(check->Err_0)
    } else if fee is None {
        Err(ProtocolError::ArithmeticOverflow)
    } else if principal + fee->0 > u64::MAX {
        Err(ProtocolError::ArithmeticOverflow)
    } else if ctx.config.net_deposits + principal > u64::MAX {
        Err(ProtocolError::ArithmeticOverflow)
    } else if ctx.config.collected_fees + fee->0 > u64::MAX {
        Err(ProtocolError::ArithmeticOverflow)
    } else {
        Ok((principal, fee->0))
    }
}

/// Outcome of creating the pool record: refused if it exists, else an empty
/// record bound to the two token classes.
pub open spec fn initialize_post(
    before: Initialize,
    basis_points: u16,
    bump: u8,
    after: Initialize,
    r: Result<(), ProtocolError>,
) -> bool {
    match before.config {
        Some(_) => r == Err::<(), ProtocolError>(ProtocolError::AlreadyInitialized) && after == before,
        None => r is Ok && after == (Initialize {
            config: Some(
                Config {
                    net_deposits: 0,
                    basis_points,
                    collected_fees: 0,
                    lp_mint: before.lp_mint.key,
                    usdt_mint: before.usdt_mint.key,
                    bumps: bump,
                },
            ),
            ..before
        }),
    }
}

/// Outcome of a borrow: on success the pool lent the amount and nothing else
/// changed; on failure nothing changed.
pub open spec fn borrow_post(before: Borrow, borrow_amount: u64, after: Borrow, r: Result<BorrowEvent, ProtocolError>) -> bool {
    match r {
        Ok(ev) => {
            &&& borrow_outcome(before, borrow_amount) is Ok
            &&& ev == (BorrowEvent { user: before.borrower, amount: borrow_amount })
            &&& steps_to(before.config, Effect::Borrowed(borrow_amount), after.config)
            &&& after == (Borrow { config: after.config, ..before })
        },
        Err(e) => {
            &&& borrow_outcome(before, borrow_amount) == Err::<(), ProtocolError>(e)
            &&& after == before
        },
    }
}

/// Outcome of a repay: on success principal and fee were collected and
/// nothing else changed; on failure nothing changed.
pub open spec fn repay_post(before: Repay, after: Repay, r: Result<RepayEvent, ProtocolError>) -> bool {
    match r {
        Ok(ev) => {
            &&& repay_outcome(before) is Ok
            &&& ev == (RepayEvent {
                user: before.borrower,
                amount: (repay_outcome(before)->Ok_0.0 + repay_outcome(before)->Ok_0.1) as u64,
            })
            &&& steps_to(
                before.config,
                Effect::Repaid(repay_outcome(before)->Ok_0.0, repay_outcome(before)->Ok_0.1),
                after.config,
            )
            &&& after == (Repay { config: after.config, ..before })
        },
        Err(e) => {
            &&& repay_outcome(before) == Err::<(u64, u64), ProtocolError>(e)
            &&& after == before
        },
    }
}

/// Outcome of a deposit: on success the pool grew by the amount and nothing
/// else changed; on failure nothing changed.
pub open spec fn deposit_post(before: Deposit, amount: u64, after: Deposit, r: Result<DepositEvent, ProtocolError>) -> bool {
    match r {
        Ok(ev) => {
            &&& deposit_outcome(before, amount) == Ok::<u64, ProtocolError>(ev.shares_minted)
            &&& ev.user == before.liquidator
            &&& ev.amount == amount
            &&& steps_to(before.config, Effect::Deposited(amount), after.config)
            &&& after == (Deposit { config: after.config, ..before })
        },
        Err(e) => {
            &&& deposit_outcome(before, amount) == Err::<u64, ProtocolError>(e)
            &&& after == before
        },
    }
}

/// Outcome of a withdrawal: on success the pool shrank by the payout and
/// nothing else changed; on failure nothing changed.
pub open spec fn withdraw_post(before: Withdraw, lp_amount: u64, after: Withdraw, r: Result<WithdrawEvent, ProtocolError>) -> bool {
    match r {
        Ok(ev) => {
            &&& withdraw_outcome(before, lp_amount) == Ok::<u64, ProtocolError>(ev.usdt_amount)
            &&& ev.user == before.lp
            &&& ev.lp_amount == lp_amount
            &&& steps_to(before.config, Effect::Withdrawn(ev.usdt_amount), after.config)
            &&& after == (Withdraw { config: after.config, ..before })
        },
        Err(e) => {
            &&& withdraw_outcome(before, lp_amount) == Err::<u64, ProtocolError>(e)
            &&& after == before
        },
    }
}

impl Borrow {
    /// Lends `borrow_amount` from the pool, provided the bundle ends with the
    /// matching repay. The pool's `net_deposits` drops by the amount at once;
    /// the repay later in the bundle restores it.
    pub fn borrow_process(&mut self, borrow_amount: u64) -> (r: Result<BorrowEvent, ProtocolError>)
        ensures
            borrow_post(*old(self), borrow_amount, *final(self), r),
    {
        if !self.mint.key.same(&self.config.usdt_mint) {
            return Err(ProtocolError::InvalidMint);
        }
        if borrow_amount == 0 {
            return Err(ProtocolError::InvalidAmount);
        }
        if self.config.net_deposits < borrow_amount {
            return Err(ProtocolError::InsufficientFunds);
        }
        let count: usize = self.instructions.len();
        if count == 0 {
            return Err(ProtocolError::MissingRepay);
        }
        match verify_instruction_at(
            &self.instructions,
            count - 1,
            &self.program_id,
            InstructionKind::Repay,
            &self.borrower_ata.key,
            &self.protocol_ata.key,
        ) {
            Ok(()) => {},
            Err(e) => {
                return Err(e);
            },
        }
        self.config.net_deposits = self.config.net_deposits - borrow_amount;
        Ok(BorrowEvent { user: self.borrower, amount: borrow_amount })
    }
}

impl Repay {
    /// Collects the principal named by the bundle's opening borrow plus the
    /// fee. The principal returns to `net_deposits`; the fee goes to
    /// `collected_fees` only.
    pub fn repay_process(&mut self) -> (r: Result<RepayEvent, ProtocolError>)
        ensures
            repay_post(*old(self), *final(self), r),
    {
        if !self.usdt_mint.key.same(&self.config.usdt_mint) {
            return Err(ProtocolError::InvalidMint);
        }
        match verify_instruction_at(
            &self.instructions,
            0,
            &self.program_id,
            InstructionKind::Borrow,
            &self.borrower_ata.key,
            &self.protocol_ata.key,
        ) {
            Ok(()) => {},
            Err(e) => {
                return Err(e);
            },
        }
        let amount_borrowed: u64 = read_u64_le(&self.instructions[0].data, 8);
        let fee: u64 = match fee_for(amount_borrowed, self.config.basis_points) {
            Some(f) => f,
            None => {
                return Err(ProtocolError::ArithmeticOverflow);
            },
        };
        let total_repayment: u64 = match amount_borrowed.checked_add(fee) {
            Some(t) => t,
            None => {
                return Err(ProtocolError::ArithmeticOverflow);
            },
        };
        let net_deposits: u64 = match self.config.net_deposits.checked_add(amount_borrowed) {
            Some(n) => n,
            None => {
                return Err(ProtocolError::ArithmeticOverflow);
            },
        };
        let collected_fees: u64 = match self.config.collected_fees.checked_add(fee) {
            Some(c) => c,
            None => {
                return Err(ProtocolError::ArithmeticOverflow);
            },
        };
        self.config.net_deposits = net_deposits;
        self.config.collected_fees = collected_fees;
        Ok(RepayEvent { user: self.borrower, amount: total_repayment })
    }
}

impl Initialize {
    /// Creates the pool record, empty, bound to the two token classes, with
    /// the given fee rate. The rate is stored as given.
    pub fn initialize(&mut self, basis_points: u16, bump: u8) -> (r: Result<(), ProtocolError>)
        ensures
            initialize_post(*old(self), basis_points, bump, *final(self), r),
    {
        if self.config.is_some() {
            return Err(ProtocolError::AlreadyInitialized);
        }
        self.config = Some(
            Config {
                net_deposits: 0,
                basis_points,
                collected_fees: 0,
                lp_mint: self.lp_mint.key,
                usdt_mint: self.usdt_mint.key,
                bumps: bump,
            },
        );
        Ok(())
    }
}

impl Deposit {
    /// Takes `amount` of the asset into the pool and mints shares for it:
    /// one per unit into an empty pool, else in proportion to the pool as it
    /// stood before the deposit, rounded down.
    pub fn deposit(&mut self, amount: u64) -> (r: Result<DepositEvent, ProtocolError>)
        ensures
            deposit_post(*old(self), amount, *final(self), r),
    {
        if !self.lp_mint.key.same(&self.config.lp_mint) || !self.usdt_mint.key.same(
            &self.config.usdt_mint,
        ) {
            return Err(ProtocolError::InvalidMint);
        }
        if amount == 0 {
            return Err(ProtocolError::InvalidAmount);
        }
        if self.liquidator_usdt_ata.amount < amount {
            return Err(ProtocolError::InsufficientFunds);
        }
        let shares_to_mint: u64 = match shares_for_deposit(
            amount,
            self.lp_mint.supply,
            self.config.net_deposits,
        ) {
            Some(s) => s,
            None => {
                return Err(ProtocolError::ArithmeticOverflow);
            },
        };
        let net_deposits: u64 = match self.config.net_deposits.checked_add(amount) {
            Some(n) => n,
            None => {
                return Err(ProtocolError::ArithmeticOverflow);
            },
        };
        self.config.net_deposits = net_deposits;
        Ok(DepositEvent { user: self.liquidator, amount, shares_minted: shares_to_mint })
    }
}

impl Withdraw {
    /// Redeems `lp_amount` shares for their part of the pool, rounded down.
    /// The host burns the shares before it pays out.
    pub fn withdraw(&mut self, lp_amount: u64) -> (r: Result<WithdrawEvent, ProtocolError>)
        ensures
            withdraw_post(*old(self), lp_amount, *final(self), r),
    {
        if !self.lp_mint.key.same(&self.config.lp_mint) || !self.usdt_mint.key.same(
            &self.config.usdt_mint,
        ) {
            return Err(ProtocolError::InvalidMint);
        }
        if lp_amount == 0 {
            return Err(ProtocolError::InvalidAmount);
        }
        if self.lp_ata.amount < lp_amount {
            return Err(ProtocolError::InsufficientFunds);
        }
        let total_supply: u64 = self.lp_mint.supply;
        if total_supply == 0 {
            return Err(ProtocolError::EmptyPool);
        }
        let payout: u128 = payout_for_withdraw(lp_amount, total_supply, self.config.net_deposits);
        if payout > self.config.net_deposits as u128 {
            return Err(ProtocolError::ArithmeticUnderflow);
        }
        let withdraw_amount: u64 = payout as u64;
        self.config.net_deposits = self.config.net_deposits - withdraw_amount;
        Ok(WithdrawEvent { user: self.lp, lp_amount, usdt_amount: withdraw_amount })
    }
}

/// Entry point: creates the pool record.
pub fn initialize(ctx: &mut Initialize, basis_points: u16, bump: u8) -> (r: Result<(), ProtocolError>)
    ensures
        initialize_post(*old(ctx), basis_points, bump, *final(ctx), r),
{
    ctx.initialize(basis_points, bump)
}

/// Entry point: deposits `amount` of the asset.
pub fn deposit(ctx: &mut Deposit, amount: u64) -> (r: Result<DepositEvent, ProtocolError>)
    ensures
        deposit_post(*old(ctx), amount, *final(ctx), r),
{
    ctx.deposit(amount)
}

/// Entry point: redeems `amount` shares.
pub fn withdraw(ctx: &mut Withdraw, amount: u64) -> (r: Result<WithdrawEvent, ProtocolError>)
    ensures
        withdraw_post(*old(ctx), amount, *final(ctx), r),
{
    ctx.withdraw(amount)
}

/// Entry point: takes a flash loan of `borrow_amount`.
pub fn borrow(ctx: &mut Borrow, borrow_amount: u64) -> (r: Result<BorrowEvent, ProtocolError>)
    ensures
        borrow_post(*old(ctx), borrow_amount, *final(ctx), r),
{
    ctx.borrow_process(borrow_amount)
}

/// Entry point: repays the flash loan that opens the bundle.
pub fn repay(ctx: &mut Repay) -> (r: Result<RepayEvent, ProtocolError>)
    ensures
        repay_post(*old(ctx), *final(ctx), r),
{
    ctx.repay_process()
}

} // verus!
