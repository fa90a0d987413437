//! Accounting core of a single-asset lending pool with flash loans.
//!
//! Each operation takes a snapshot of the accounts it works on, decides, and
//! on success updates the pool record and returns an event that tells the
//! host which token movements to perform. A refused operation leaves its
//! snapshot as it was.
pub mod keys;
pub mod errors;
pub mod math;
pub mod states;
pub mod emits;
pub mod bundle;
pub mod instructions;
pub mod laws;

pub use keys::Pubkey;
pub use errors::ProtocolError;
pub use states::{Config, Effect};
pub use emits::{BorrowEvent, DepositEvent, RepayEvent, WithdrawEvent};
pub use bundle::{Instruction, InstructionKind};
pub use instructions::{Borrow, Deposit, Initialize, Mint, Repay, TokenAccount, Withdraw};
pub use instructions::{borrow, deposit, initialize, repay, withdraw};
