//! Failure taxonomy of the sale instruction set.

use vstd::prelude::*;

verus! {

/// A validation failure raised by the program logic itself.
#[derive(Clone, Copy, Debug, PartialEq, Eq, Structural)]
pub enum ErrorCode {
    /// `create_drop` was called with a commission rate above 100%.
    InvalidCommissionBps,
    /// `buy_drop` was called with a payment that does not equal the listed
    /// price; there is no overpayment or underpayment tolerance.
    IncorrectPaymentAmount,
    /// The seller presented to `buy_drop` is not the seller recorded in the
    /// listing.
    OwnershipMismatch,
    /// The seller-share subtraction would underflow. Defensive: unreachable
    /// for a listing whose commission rate is within bounds.
    ArithmeticError,
}

/// A failure signal of the ledger collaborator: it is propagated to the
/// caller untranslated, and it aborts the whole operation.
#[derive(Clone, Copy, Debug, PartialEq, Eq, Structural)]
pub enum LedgerError {
    /// A transfer was asked of an account whose balance is below the amount.
    InsufficientFunds,
    /// Crediting the receiving account would overflow its balance.
    BalanceOverflow,
    /// The mint identity chosen for the fresh asset is already taken.
    MintInUse,
}

/// Everything that can abort a purchase: the program's own validation, or a
/// propagated collaborator failure.
#[derive(Clone, Copy, Debug, PartialEq, Eq, Structural)]
pub enum SaleError {
    Program(ErrorCode),
    Ledger(LedgerError),
}

} // verus!
