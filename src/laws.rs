use vstd::prelude::*;
use crate::bundle::{
    borrow_amount_of, parses_as, InstructionKind, BORROWER_ATA_INDEX, PROTOCOL_ATA_INDEX,
};
use crate::emits::{BorrowEvent, RepayEvent, WithdrawEvent};
use crate::errors::ProtocolError;
use crate::instructions::{borrow_post, repay_post, withdraw_post, Borrow, Repay, Withdraw};
use crate::math::{flash_fee, withdraw_payout};
use crate::states::{steps_to, Config, Effect};

verus! {

/// Sum of `f` over the effects of `es`.
pub open spec fn total(es: Seq<Effect>, f: spec_fn(Effect) -> int) -> int
    decreases es.len(),
{
    if es.len() == 0 {
        0
    } else {
        f(es[0]) + total(es.drop_first(), f)
    }
}

pub open spec fn deposited(e: Effect) -> int {
    match e {
        Effect::Deposited(a) => a as int,
        _ => 0,
    }
}

pub open spec fn withdrawn(e: Effect) -> int {
    match e {
        Effect::Withdrawn(a) => a as int,
        _ => 0,
    }
}

pub open spec fn borrowed(e: Effect) -> int {
    match e {
        Effect::Borrowed(a) => a as int,
        _ => 0,
    }
}

pub open spec fn repaid(e: Effect) -> int {
    match e {
        Effect::Repaid(a, _) => a as int,
        _ => 0,
    }
}

pub open spec fn fees(e: Effect) -> int {
    match e {
        Effect::Repaid(_, f) => f as int,
        _ => 0,
    }
}

/// `states` is the succession of pool records that applying `effects` in
/// order produces.
pub open spec fn is_run(states: Seq<Config>, effects: Seq<Effect>) -> bool {
    &&& states.len() == effects.len() + 1
    &&& forall|i: int|
        0 <= i < effects.len() ==> #[trigger] steps_to(states[i], effects[i], states[i + 1])
}

/// Every borrow in `es` is directly followed by the repay of the same
/// principal, and no repay stands alone.
pub open spec fn loans_paired(es: Seq<Effect>) -> bool
    decreases es.len(),
{
    if es.len() == 0 {
        true
    } else {
        match es[0] {
            Effect::Borrowed(a) => {
                &&& es.len() >= 2
                &&& es[1] is Repaid
                &&& es[1]->Repaid_0 == a
                &&& loans_paired(es.subrange(2, es.len() as int))
            },
            Effect::Repaid(_, _) => false,
            _ => loans_paired(es.drop_first()),
        }
    }
}

/// Conservation: over any run, `net_deposits` moves by exactly the principal
/// deposited and repaid minus the principal withdrawn and lent out, and
/// `collected_fees` grows by exactly the fees paid.
pub proof fn conservation(states: Seq<Config>, effects: Seq<Effect>)
    requires
        is_run(states, effects),
    ensures
        states.last().net_deposits == states[0].net_deposits + total(effects, |e| deposited(e))
            + total(effects, |e| repaid(e)) - total(effects, |e| withdrawn(e)) - total(
            effects,
            |e| borrowed(e),
        ),
        states.last().collected_fees == states[0].collected_fees + total(effects, |e| fees(e)),
    decreases effects.len(),
{
    if effects.len() > 0 {
        let rest_states = states.drop_first();
        let rest = effects.drop_first();
        assert forall|i: int| 0 <= i < rest.len() implies #[trigger] steps_to(
            rest_states[i],
            rest[i],
            rest_states[i + 1],
        ) by {
            let j: int = i + 1;
            assert(steps_to(states[j], effects[j], states[j + 1]));
        }
        conservation(rest_states, rest);
        assert(steps_to(states[0], effects[0], states[1]));
    }
}

proof fn lemma_paired_loans_cancel(es: Seq<Effect>)
    requires
        loans_paired(es),
    ensures
        total(es, |e| borrowed(e)) == total(es, |e| repaid(e)),
    decreases es.len(),
{
    if es.len() > 0 {
        match es[0] {
            Effect::Borrowed(a) => {
                let tail = es.subrange(2, es.len() as int);
                assert(es.drop_first().drop_first() =~= tail);
                lemma_paired_loans_cancel(tail);
                assert(es.drop_first()[0] == es[1]);
                reveal_with_fuel(total, 2);
            },
            _ => {
                lemma_paired_loans_cancel(es.drop_first());
            },
        }
    }
}

/// Conservation over runs made of deposits, withdrawals and paired flash
/// loans: `net_deposits` moves by deposits minus withdrawals alone, and
/// `collected_fees` grows by the fees of the loans.
pub proof fn conservation_with_paired_loans(states: Seq<Config>, effects: Seq<Effect>)
    requires
        is_run(states, effects),
        loans_paired(effects),
    ensures
        states.last().net_deposits == states[0].net_deposits + total(effects, |e| deposited(e))
            - total(effects, |e| withdrawn(e)),
        states.last().collected_fees == states[0].collected_fees + total(effects, |e| fees(e)),
{
    conservation(states, effects);
    lemma_paired_loans_cancel(effects);
}

/// A borrow succeeds only inside a bundle whose last instruction is this
/// program's repay, naming the same borrower and pool asset accounts, and
/// only for an amount the pool holds.
pub proof fn borrow_requires_paired_repay(
    before: Borrow,
    amount: u64,
    after: Borrow,
    r: Result<BorrowEvent, ProtocolError>,
)
    requires
        borrow_post(before, amount, after, r),
        r is Ok,
    ensures
        0 < amount <= before.config.net_deposits,
        before.instructions@.len() > 0,
        before.instructions@.last().program_id == before.program_id,
        parses_as(before.instructions@.last().data@, InstructionKind::Repay),
        before.instructions@.last().accounts@.len() > PROTOCOL_ATA_INDEX,
        before.instructions@.last().accounts@[BORROWER_ATA_INDEX as int] == before.borrower_ata.key,
        before.instructions@.last().accounts@[PROTOCOL_ATA_INDEX as int] == before.protocol_ata.key,
{
}

/// A repay succeeds only inside a bundle whose first instruction is this
/// program's borrow, naming the same accounts, and collects the principal
/// that borrow names plus the fee on it.
pub proof fn repay_requires_opening_borrow(
    before: Repay,
    after: Repay,
    r: Result<RepayEvent, ProtocolError>,
)
    requires
        repay_post(before, after, r),
        r is Ok,
    ensures
        before.instructions@.len() > 0,
        before.instructions@[0].program_id == before.program_id,
        parses_as(before.instructions@[0].data@, InstructionKind::Borrow),
        before.instructions@[0].accounts@.len() > PROTOCOL_ATA_INDEX,
        before.instructions@[0].accounts@[BORROWER_ATA_INDEX as int] == before.borrower_ata.key,
        before.instructions@[0].accounts@[PROTOCOL_ATA_INDEX as int] == before.protocol_ata.key,
        after.config.net_deposits == before.config.net_deposits + borrow_amount_of(
            before.instructions@[0].data@,
        ),
        r->Ok_0.amount == borrow_amount_of(before.instructions@[0].data@) + flash_fee(
            borrow_amount_of(before.instructions@[0].data@) as u64,
            before.config.basis_points,
        )->0,
{
}

/// A flash loan followed by its repay in the same bundle leaves
/// `net_deposits` where it was and adds the fee on the principal to
/// `collected_fees`.
pub proof fn flash_loan_round_trip(
    borrow_before: Borrow,
    amount: u64,
    borrow_after: Borrow,
    borrow_result: Result<BorrowEvent, ProtocolError>,
    repay_before: Repay,
    repay_after: Repay,
    repay_result: Result<RepayEvent, ProtocolError>,
)
    requires
        borrow_post(borrow_before, amount, borrow_after, borrow_result),
        borrow_result is Ok,
        repay_before.config == borrow_after.config,
        repay_before.instructions@.len() > 0,
        borrow_amount_of(repay_before.instructions@[0].data@) == amount,
        repay_post(repay_before, repay_after, repay_result),
        repay_result is Ok,
    ensures
        repay_after.config.net_deposits == borrow_before.config.net_deposits,
        repay_after.config.collected_fees == borrow_before.config.collected_fees + flash_fee(
            amount,
            borrow_before.config.basis_points,
        )->0,
        repay_result->Ok_0.amount == amount + flash_fee(amount, borrow_before.config.basis_points)->0,
{
}

/// A borrow whose bundle does not end with a repay instruction of this
/// program is refused as missing its repay, and changes nothing.
pub proof fn borrow_without_repay_fails(
    before: Borrow,
    amount: u64,
    after: Borrow,
    r: Result<BorrowEvent, ProtocolError>,
)
    requires
        borrow_post(before, amount, after, r),
        before.mint.key == before.config.usdt_mint,
        0 < amount <= before.config.net_deposits,
        before.instructions@.len() == 0 || (before.instructions@.last().program_id
            == before.program_id && !parses_as(
            before.instructions@.last().data@,
            InstructionKind::Repay,
        )),
    ensures
        r == Err::<BorrowEvent, ProtocolError>(ProtocolError::MissingRepay),
        after == before,
{
}

/// A repay whose bundle does not open with a borrow instruction of this
/// program is refused as missing its borrow, and changes nothing.
pub proof fn repay_without_borrow_fails(
    before: Repay,
    after: Repay,
    r: Result<RepayEvent, ProtocolError>,
)
    requires
        repay_post(before, after, r),
        before.usdt_mint.key == before.config.usdt_mint,
        before.instructions@.len() == 0 || (before.instructions@[0].program_id
            == before.program_id && !parses_as(
            before.instructions@[0].data@,
            InstructionKind::Borrow,
        )),
    ensures
        r == Err::<RepayEvent, ProtocolError>(ProtocolError::MissingBorrow),
        after == before,
{
}

/// A borrow of more than the pool holds is refused for want of funds, and
/// changes nothing.
pub proof fn overdraw_fails(
    before: Borrow,
    amount: u64,
    after: Borrow,
    r: Result<BorrowEvent, ProtocolError>,
)
    requires
        borrow_post(before, amount, after, r),
        before.mint.key == before.config.usdt_mint,
        amount > before.config.net_deposits,
    ensures
        r == Err::<BorrowEvent, ProtocolError>(ProtocolError::InsufficientFunds),
        after == before,
{
}

/// Redeeming shares worth more than the pool holds is refused by the checked
/// subtraction, and changes nothing.
pub proof fn withdraw_overdraw_fails(
    before: Withdraw,
    lp_amount: u64,
    after: Withdraw,
    r: Result<WithdrawEvent, ProtocolError>,
)
    requires
        withdraw_post(before, lp_amount, after, r),
        before.lp_mint.key == before.config.lp_mint,
        before.usdt_mint.key == before.config.usdt_mint,
        0 < lp_amount <= before.lp_ata.amount,
        before.lp_mint.supply > 0,
        withdraw_payout(lp_amount, before.lp_mint.supply, before.config.net_deposits)
            > before.config.net_deposits,
    ensures
        r == Err::<WithdrawEvent, ProtocolError>(ProtocolError::ArithmeticUnderflow),
        after == before,
{
}

} // verus!
