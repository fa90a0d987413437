use vstd::prelude::*;

verus! {

/// Why an operation was refused. Every error aborts the whole operation.
#[derive(Clone, Copy, Debug, PartialEq, Eq, Structural)]
pub enum ProtocolError {
    /// A zero amount was requested.
    InvalidAmount,
    /// The pool or the caller holds too little.
    InsufficientFunds,
    /// A checked addition, multiplication, division or narrowing failed.
    ArithmeticOverflow,
    /// A checked subtraction would go below zero.
    ArithmeticUnderflow,
    /// A token class does not match the one the pool is bound to.
    InvalidMint,
    /// An account named by a bundled instruction is not the expected one.
    InvalidAccount,
    /// The bundle holds no borrow at the position a repay reads.
    MissingBorrow,
    /// The bundle holds no repay at the position a borrow checks.
    MissingRepay,
    /// The instruction at the checked position was issued to another program.
    InvalidBundleSource,
    /// A withdrawal was attempted while no shares exist.
    EmptyPool,
    /// The pool record already exists.
    AlreadyInitialized,
}

} // verus!
