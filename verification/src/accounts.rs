//! The accounts that an instruction names, as plain values.

use vstd::prelude::*;
use crate::address::Address;

verus! {

/// The payload of a vault state record: the bumps that derive the owner's two
/// accounts.
#[derive(Clone, Copy, Debug, PartialEq, Eq, Structural)]
pub struct VaultState {
    /// Derives the vault's address, with the label `vault` and the owner.
    pub vault_bump: u8,
    /// Derives the record's own address, with the label `state` and the owner.
    pub state_bump: u8,
}

/// Bytes of payload in a vault state record.
pub const VAULT_STATE_SPACE: usize = 2;

/// Whether an owner has a vault: the record either does not exist or holds
/// the bumps.
#[derive(Clone, Copy, Debug, PartialEq, Eq, Structural)]
pub enum Record {
    Absent,
    Active(VaultState),
}

/// The bumps found while the accounts of an `initialize` were validated.
#[derive(Clone, Copy, Debug, PartialEq, Eq, Structural)]
pub struct InitializeBumps {
    pub vault_state: u8,
    pub vault: u8,
}

/// The owner's own account, which pays into the vault and is paid out of it.
#[derive(Clone, Copy, Debug, PartialEq, Eq)]
pub struct Signer {
    /// The owner identity.
    pub key: Address,
    pub lamports: u64,
    /// Whether the owner signed the instruction.
    pub is_signer: bool,
}

/// The account presented as the owner's vault state record.
#[derive(Clone, Copy, Debug, PartialEq, Eq)]
pub struct StateAccount {
    pub key: Address,
    pub lamports: u64,
    pub record: Record,
}

/// The account presented as the owner's vault: a balance and nothing else.
#[derive(Clone, Copy, Debug, PartialEq, Eq)]
pub struct SystemAccount {
    pub key: Address,
    pub lamports: u64,
}

} // verus!
