//! The reasons for which an operation on a bank is turned down.

use vstd::prelude::*;

verus! {

/// Why `create`, `deposit` or `withdraw` refused to act.
///
/// Every variant is final for the call that returned it: nothing was changed,
/// and the same call on the same state is refused again.
#[derive(Clone, Copy, Debug, PartialEq, Eq, Structural)]
pub enum BankError {
    /// The name given to `create` has no bytes.
    EmptyName,
    /// The name given to `create` has twenty bytes or more.
    NameTooLong,
    /// The amount to deposit or to withdraw is zero.
    ZeroAmount,
    /// The depositor disposes of less than the amount to deposit.
    InsufficientFunds,
    /// The one who asks for a withdrawal is not the bank's owner.
    Unauthorized,
    /// The bank's balance is lower than the amount to withdraw.
    InsufficientBankBalance,
}

} // verus!
