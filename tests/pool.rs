use flashix::bundle::{has_tag, read_u64_le, verify_instruction_at};
use flashix::math::{fee_for, payout_for_withdraw, shares_for_deposit};
use flashix::{
    borrow, deposit, initialize, repay, withdraw, Borrow, Config, Deposit, Initialize,
    Instruction, InstructionKind, Mint, ProtocolError, Pubkey, Repay, TokenAccount, Withdraw,
};

const BORROW_TAG: [u8; 8] = [228, 253, 131, 202, 207, 116, 89, 18];
const REPAY_TAG: [u8; 8] = [234, 103, 67, 82, 208, 234, 219, 166];

fn key(n: u8) -> Pubkey {
    Pubkey::new([n; 32])
}

fn program() -> Pubkey {
    key(200)
}

fn lp_mint_key() -> Pubkey {
    key(10)
}

fn usdt_mint_key() -> Pubkey {
    key(11)
}

fn borrower_ata_key() -> Pubkey {
    key(21)
}

fn protocol_ata_key() -> Pubkey {
    key(22)
}

fn config(net_deposits: u64, basis_points: u16, collected_fees: u64) -> Config {
    Config {
        net_deposits,
        basis_points,
        collected_fees,
        lp_mint: lp_mint_key(),
        usdt_mint: usdt_mint_key(),
        bumps: 254,
    }
}

fn account(k: Pubkey, amount: u64) -> TokenAccount {
    TokenAccount { key: k, amount }
}

fn deposit_ctx(cfg: Config, supply: u64, balance: u64) -> Deposit {
    Deposit {
        liquidator: key(1),
        lp_mint: Mint { key: lp_mint_key(), supply },
        usdt_mint: Mint { key: usdt_mint_key(), supply: 1_000_000_000 },
        config: cfg,
        lp_ata: account(key(2), 0),
        liquidator_usdt_ata: account(key(3), balance),
        usdt_protocol_ata: account(protocol_ata_key(), cfg.net_deposits),
    }
}

fn withdraw_ctx(cfg: Config, supply: u64, lp_balance: u64) -> Withdraw {
    Withdraw {
        lp: key(1),
        lp_mint: Mint { key: lp_mint_key(), supply },
        usdt_mint: Mint { key: usdt_mint_key(), supply: 1_000_000_000 },
        config: cfg,
        lp_ata: account(key(2), lp_balance),
        lp_usdt_ata: account(key(3), 0),
        usdt_protocol_ata: account(protocol_ata_key(), cfg.net_deposits),
    }
}

fn flash_accounts(borrower_ata: Pubkey, protocol_ata: Pubkey) -> Vec<Pubkey> {
    vec![key(5), key(6), usdt_mint_key(), borrower_ata, protocol_ata, key(7)]
}

fn borrow_ix(amount: u64) -> Instruction {
    let mut data = BORROW_TAG.to_vec();
    data.extend_from_slice(&amount.to_le_bytes());
    Instruction {
        program_id: program(),
        accounts: flash_accounts(borrower_ata_key(), protocol_ata_key()),
        data,
    }
}

fn repay_ix() -> Instruction {
    Instruction {
        program_id: program(),
        accounts: flash_accounts(borrower_ata_key(), protocol_ata_key()),
        data: REPAY_TAG.to_vec(),
    }
}

fn borrow_ctx(cfg: Config, bundle: Vec<Instruction>) -> Borrow {
    Borrow {
        borrower: key(5),
        config: cfg,
        mint: Mint { key: usdt_mint_key(), supply: 1_000_000_000 },
        borrower_ata: account(borrower_ata_key(), 0),
        protocol_ata: account(protocol_ata_key(), cfg.net_deposits),
        instructions: bundle,
        program_id: program(),
    }
}

fn repay_ctx(cfg: Config, bundle: Vec<Instruction>) -> Repay {
    Repay {
        borrower: key(5),
        config: cfg,
        usdt_mint: Mint { key: usdt_mint_key(), supply: 1_000_000_000 },
        borrower_ata: account(borrower_ata_key(), 10_000),
        protocol_ata: account(protocol_ata_key(), cfg.net_deposits),
        instructions: bundle,
        program_id: program(),
    }
}

#[test]
fn initialize_creates_empty_record() {
    let mut ctx = Initialize {
        protocol: program(),
        config: None,
        lp_mint: Mint { key: lp_mint_key(), supply: 0 },
        usdt_mint: Mint { key: usdt_mint_key(), supply: 5 },
    };
    assert_eq!(initialize(&mut ctx, 500, 254), Ok(()));
    assert_eq!(ctx.config, Some(config(0, 500, 0)));
}

#[test]
fn initialize_twice_is_refused() {
    let mut ctx = Initialize {
        protocol: program(),
        config: Some(config(40, 500, 3)),
        lp_mint: Mint { key: key(90), supply: 0 },
        usdt_mint: Mint { key: key(91), supply: 5 },
    };
    assert_eq!(ctx.initialize(700, 1), Err(ProtocolError::AlreadyInitialized));
    assert_eq!(ctx.config, Some(config(40, 500, 3)));
}

#[test]
fn first_deposit_mints_one_share_per_unit() {
    let mut ctx = deposit_ctx(config(0, 500, 0), 0, 1_000);
    let ev = deposit(&mut ctx, 100).unwrap();
    assert_eq!(ev.shares_minted, 100);
    assert_eq!(ev.amount, 100);
    assert_eq!(ev.user, key(1));
    assert_eq!(ctx.config.net_deposits, 100);
}

#[test]
fn later_deposit_mints_proportional_shares() {
    let mut ctx = deposit_ctx(config(200, 500, 0), 100, 1_000);
    let ev = ctx.deposit(50).unwrap();
    assert_eq!(ev.shares_minted, 25);
    assert_eq!(ctx.config.net_deposits, 250);
}

#[test]
fn deposit_shares_round_down() {
    let mut ctx = deposit_ctx(config(300, 500, 0), 100, 1_000);
    let ev = ctx.deposit(10).unwrap();
    assert_eq!(ev.shares_minted, 3);
}

#[test]
fn withdraw_pays_proportional_amount() {
    let mut ctx = withdraw_ctx(config(200, 500, 0), 100, 25);
    let ev = withdraw(&mut ctx, 25).unwrap();
    assert_eq!(ev.usdt_amount, 50);
    assert_eq!(ev.lp_amount, 25);
    assert_eq!(ev.user, key(1));
    assert_eq!(ctx.config.net_deposits, 150);
}

#[test]
fn flash_loan_collects_fee_and_keeps_principal() {
    let cfg = config(5_000, 500, 7);
    let bundle = vec![borrow_ix(1000), repay_ix()];
    let mut b = borrow_ctx(cfg, bundle.clone());
    let bev = borrow(&mut b, 1000).unwrap();
    assert_eq!(bev.amount, 1000);
    assert_eq!(bev.user, key(5));
    assert_eq!(b.config.net_deposits, 4_000);
    let mut r = repay_ctx(b.config, bundle);
    let rev = repay(&mut r).unwrap();
    assert_eq!(rev.amount, 1050);
    assert_eq!(rev.user, key(5));
    assert_eq!(r.config.collected_fees, 57);
    assert_eq!(r.config.net_deposits, 5_000);
}

#[test]
fn borrow_without_repay_is_refused() {
    let cfg = config(5_000, 500, 0);
    let mut b = borrow_ctx(cfg, vec![borrow_ix(1000)]);
    let before = b.clone();
    assert_eq!(b.borrow_process(1000), Err(ProtocolError::MissingRepay));
    assert_eq!(b.config, before.config);
    let mut empty = borrow_ctx(cfg, vec![]);
    assert_eq!(empty.borrow_process(1000), Err(ProtocolError::MissingRepay));
    assert_eq!(empty.config, cfg);
}

#[test]
fn repay_without_borrow_is_refused() {
    let cfg = config(5_000, 500, 0);
    let mut r = repay_ctx(cfg, vec![repay_ix()]);
    assert_eq!(r.repay_process(), Err(ProtocolError::MissingBorrow));
    assert_eq!(r.config, cfg);
    let mut empty = repay_ctx(cfg, vec![]);
    assert_eq!(empty.repay_process(), Err(ProtocolError::MissingBorrow));
    let mut short = borrow_ix(10);
    short.data.truncate(12);
    let mut r2 = repay_ctx(cfg, vec![short, repay_ix()]);
    assert_eq!(r2.repay_process(), Err(ProtocolError::MissingBorrow));
}

#[test]
fn borrow_more_than_pool_is_refused() {
    let cfg = config(999, 500, 0);
    let mut b = borrow_ctx(cfg, vec![borrow_ix(1000), repay_ix()]);
    assert_eq!(b.borrow_process(1000), Err(ProtocolError::InsufficientFunds));
    assert_eq!(b.config, cfg);
}

#[test]
fn withdraw_worth_more_than_pool_underflows() {
    let cfg = config(200, 500, 0);
    let mut ctx = withdraw_ctx(cfg, 100, 150);
    assert_eq!(ctx.withdraw(150), Err(ProtocolError::ArithmeticUnderflow));
    assert_eq!(ctx.config, cfg);
}

#[test]
fn failures_leave_everything_unchanged() {
    let cfg = config(200, 500, 9);
    let mut d = deposit_ctx(cfg, 100, 10);
    let d0 = d;
    assert_eq!(d.deposit(11), Err(ProtocolError::InsufficientFunds));
    assert_eq!(d.config, d0.config);
    assert_eq!(d.lp_mint, d0.lp_mint);
    assert_eq!(d.lp_ata, d0.lp_ata);
    assert_eq!(d.liquidator_usdt_ata, d0.liquidator_usdt_ata);
    assert_eq!(d.usdt_protocol_ata, d0.usdt_protocol_ata);

    let mut w = withdraw_ctx(cfg, 100, 5);
    let w0 = w;
    assert_eq!(w.withdraw(6), Err(ProtocolError::InsufficientFunds));
    assert_eq!(w.config, w0.config);
    assert_eq!(w.lp_ata, w0.lp_ata);
    assert_eq!(w.lp_usdt_ata, w0.lp_usdt_ata);

    let mut r = repay_ctx(config(u64::MAX - 10, 500, 0), vec![borrow_ix(100), repay_ix()]);
    let r0 = r.clone();
    assert_eq!(r.repay_process(), Err(ProtocolError::ArithmeticOverflow));
    assert_eq!(r.config, r0.config);
    assert_eq!(r.borrower_ata, r0.borrower_ata);
}

#[test]
fn wide_products_compute_exactly() {
    let half = u64::MAX / 2;
    let mut ctx = deposit_ctx(config(half, 0, 0), half, u64::MAX);
    let ev = ctx.deposit(half).unwrap();
    assert_eq!(ev.shares_minted, half);
    assert_eq!(ctx.config.net_deposits, half * 2);
    assert_eq!(shares_for_deposit(u64::MAX, u64::MAX, u64::MAX), Some(u64::MAX));
    assert_eq!(payout_for_withdraw(u64::MAX, u64::MAX, u64::MAX), u64::MAX as u128);
    assert_eq!(fee_for(u64::MAX, 500), Some(u64::MAX / 20));
}

#[test]
fn oversized_results_fail_at_narrowing() {
    assert_eq!(shares_for_deposit(u64::MAX, 2, 1), None);
    assert_eq!(fee_for(u64::MAX, 65535), None);
    let mut ctx = deposit_ctx(config(1, 0, 0), 2, u64::MAX);
    assert_eq!(ctx.deposit(u64::MAX), Err(ProtocolError::ArithmeticOverflow));
    assert_eq!(ctx.config.net_deposits, 1);
    let cfg = config(u64::MAX, 65535, 0);
    let mut r = repay_ctx(cfg, vec![borrow_ix(u64::MAX), repay_ix()]);
    assert_eq!(r.repay_process(), Err(ProtocolError::ArithmeticOverflow));
    let mut r2 = repay_ctx(config(0, 500, 0), vec![borrow_ix(u64::MAX), repay_ix()]);
    assert_eq!(r2.repay_process(), Err(ProtocolError::ArithmeticOverflow));
}

#[test]
fn deposit_overflowing_pool_is_refused() {
    let mut ctx = deposit_ctx(config(u64::MAX, 0, 0), 0, 10);
    assert_eq!(ctx.deposit(1), Err(ProtocolError::ArithmeticOverflow));
    assert_eq!(ctx.config.net_deposits, u64::MAX);
}

#[test]
fn deposit_into_drained_pool_with_shares_is_refused() {
    let mut ctx = deposit_ctx(config(0, 0, 0), 50, 10);
    assert_eq!(ctx.deposit(5), Err(ProtocolError::ArithmeticOverflow));
}

#[test]
fn zero_amounts_are_refused() {
    let cfg = config(200, 500, 0);
    assert_eq!(deposit_ctx(cfg, 100, 10).deposit(0), Err(ProtocolError::InvalidAmount));
    assert_eq!(withdraw_ctx(cfg, 100, 10).withdraw(0), Err(ProtocolError::InvalidAmount));
    let mut b = borrow_ctx(cfg, vec![borrow_ix(0), repay_ix()]);
    assert_eq!(b.borrow_process(0), Err(ProtocolError::InvalidAmount));
}

#[test]
fn withdraw_from_pool_without_shares_is_refused() {
    let mut ctx = withdraw_ctx(config(0, 500, 0), 0, 10);
    assert_eq!(ctx.withdraw(5), Err(ProtocolError::EmptyPool));
}

#[test]
fn foreign_token_classes_are_refused() {
    let cfg = config(200, 500, 0);
    let mut d = deposit_ctx(cfg, 100, 10);
    d.lp_mint.key = key(99);
    assert_eq!(d.deposit(5), Err(ProtocolError::InvalidMint));
    let mut w = withdraw_ctx(cfg, 100, 10);
    w.usdt_mint.key = key(99);
    assert_eq!(w.withdraw(5), Err(ProtocolError::InvalidMint));
    let mut b = borrow_ctx(cfg, vec![borrow_ix(5), repay_ix()]);
    b.mint.key = key(99);
    assert_eq!(b.borrow_process(5), Err(ProtocolError::InvalidMint));
    let mut r = repay_ctx(cfg, vec![borrow_ix(5), repay_ix()]);
    r.usdt_mint.key = key(99);
    assert_eq!(r.repay_process(), Err(ProtocolError::InvalidMint));
}

#[test]
fn instructions_of_other_programs_are_refused() {
    let cfg = config(200, 500, 0);
    let mut foreign = repay_ix();
    foreign.program_id = key(201);
    let mut b = borrow_ctx(cfg, vec![borrow_ix(5), foreign]);
    assert_eq!(b.borrow_process(5), Err(ProtocolError::InvalidBundleSource));
    let mut foreign_borrow = borrow_ix(5);
    foreign_borrow.program_id = key(201);
    let mut r = repay_ctx(cfg, vec![foreign_borrow, repay_ix()]);
    assert_eq!(r.repay_process(), Err(ProtocolError::InvalidBundleSource));
}

#[test]
fn mismatched_accounts_are_refused() {
    let cfg = config(200, 500, 0);
    let mut other = repay_ix();
    other.accounts = flash_accounts(key(77), protocol_ata_key());
    let mut b = borrow_ctx(cfg, vec![borrow_ix(5), other]);
    assert_eq!(b.borrow_process(5), Err(ProtocolError::InvalidAccount));
    let mut other_pool = borrow_ix(5);
    other_pool.accounts = flash_accounts(borrower_ata_key(), key(78));
    let mut r = repay_ctx(cfg, vec![other_pool, repay_ix()]);
    assert_eq!(r.repay_process(), Err(ProtocolError::InvalidAccount));
    let mut few = repay_ix();
    few.accounts.truncate(4);
    let mut b2 = borrow_ctx(cfg, vec![borrow_ix(5), few]);
    assert_eq!(b2.borrow_process(5), Err(ProtocolError::InvalidAccount));
}

#[test]
fn run_conserves_funds() {
    let mut cfg = config(0, 500, 0);
    let mut supply: u64 = 0;

    let mut d = deposit_ctx(cfg, supply, 1_000);
    supply += d.deposit(1_000).unwrap().shares_minted;
    cfg = d.config;

    let mut d2 = deposit_ctx(cfg, supply, 500);
    supply += d2.deposit(500).unwrap().shares_minted;
    cfg = d2.config;

    let bundle = vec![borrow_ix(400), repay_ix()];
    let mut b = borrow_ctx(cfg, bundle.clone());
    b.borrow_process(400).unwrap();
    let mut r = repay_ctx(b.config, bundle);
    r.repay_process().unwrap();
    cfg = r.config;

    let mut w = withdraw_ctx(cfg, supply, 300);
    let paid = w.withdraw(300).unwrap().usdt_amount;
    cfg = w.config;

    assert_eq!(paid, 300);
    assert_eq!(cfg.net_deposits, 1_000 + 500 - paid);
    assert_eq!(cfg.collected_fees, 20);
}

#[test]
fn little_endian_amount_is_read() {
    let data = vec![0xff, 1, 2, 3, 4, 5, 6, 7, 8, 9];
    assert_eq!(read_u64_le(&data, 1), 0x0807060504030201);
    assert_eq!(read_u64_le(&data, 2), 0x0908070605040302);
}

#[test]
fn tags_are_recognised() {
    assert!(has_tag(&borrow_ix(3).data, InstructionKind::Borrow));
    assert!(!has_tag(&borrow_ix(3).data, InstructionKind::Repay));
    assert!(has_tag(&repay_ix().data, InstructionKind::Repay));
    assert!(!has_tag(&repay_ix().data, InstructionKind::Borrow));
    assert!(!has_tag(&vec![228, 253, 131], InstructionKind::Borrow));
}

#[test]
fn bundle_position_is_checked() {
    let bundle = vec![borrow_ix(3), repay_ix()];
    let p = program();
    let (b, q) = (borrower_ata_key(), protocol_ata_key());
    assert_eq!(verify_instruction_at(&bundle, 0, &p, InstructionKind::Borrow, &b, &q), Ok(()));
    assert_eq!(verify_instruction_at(&bundle, 1, &p, InstructionKind::Repay, &b, &q), Ok(()));
    assert_eq!(
        verify_instruction_at(&bundle, 2, &p, InstructionKind::Repay, &b, &q),
        Err(ProtocolError::MissingRepay)
    );
    assert_eq!(
        verify_instruction_at(&bundle, 1, &p, InstructionKind::Borrow, &b, &q),
        Err(ProtocolError::MissingBorrow)
    );
}

#[test]
fn keys_compare_by_bytes() {
    let mut bytes = [3u8; 32];
    assert!(Pubkey::new(bytes).same(&key(3)));
    bytes[31] = 4;
    assert!(!Pubkey::new(bytes).same(&key(3)));
}
