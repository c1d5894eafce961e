//! The reasons an instruction is refused.

use vstd::prelude::*;

verus! {

/// Why an instruction failed.  A failed instruction leaves every account as it
/// found it.
#[derive(Clone, Copy, Debug, PartialEq, Eq, Structural)]
pub enum VaultError {
    /// A presented account's address is not the address derived for it.
    DerivationMismatch,
    /// The paying account holds less than the requested amount.
    InsufficientFunds,
    /// The owner already has a vault state record.
    AlreadyExists,
    /// The owner has no vault state record.
    AccountNotFound,
    /// The owner did not sign the instruction.
    Unauthorized,
    /// The receiving account's balance would exceed the native numeric width.
    BalanceOverflow,
}

} // verus!
