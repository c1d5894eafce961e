//! The model of one owner's custody, and what each instruction makes of it.

use vstd::prelude::*;
use crate::accounts::{InitializeBumps, Record, Signer, StateAccount, SystemAccount, VaultState};
use crate::derivation::{canonical_spec, derive_spec, CapabilityView, Label};
use crate::error::VaultError;
use crate::transfer::TransferView;

verus! {

/// The three accounts that an instruction names, as the ledger holds them: the
/// owner's own account, the account presented as the state record and the
/// account presented as the vault.
pub struct Custody {
    pub owner: Seq<u8>,
    pub signed: bool,
    pub owner_balance: nat,
    pub state_address: Seq<u8>,
    pub state_balance: nat,
    pub record: Record,
    pub vault_address: Seq<u8>,
    pub vault_balance: nat,
}

/// The accounts of an instruction as a custody.
pub open spec fn custody_of(user: Signer, vault_state: StateAccount, vault: SystemAccount) -> Custody {
    Custody {
        owner: user.key@,
        signed: user.is_signer,
        owner_balance: user.lamports as nat,
        state_address: vault_state.key@,
        state_balance: vault_state.lamports as nat,
        record: vault_state.record,
        vault_address: vault.key@,
        vault_balance: vault.lamports as nat,
    }
}

/// The custody of any accounts is well formed.
pub proof fn lemma_custody_of_wf(user: Signer, vault_state: StateAccount, vault: SystemAccount)
    ensures
        custody_of(user, vault_state, vault).wf(),
{
}

impl Custody {
    /// Addresses are 32 bytes long and balances fit the native numeric width.
    pub open spec fn wf(self) -> bool {
        &&& self.owner.len() == 32
        &&& self.state_address.len() == 32
        &&& self.vault_address.len() == 32
        &&& self.owner_balance <= u64::MAX
        &&& self.state_balance <= u64::MAX
        &&& self.vault_balance <= u64::MAX
    }

    /// The value that the three accounts hold together.
    pub open spec fn total(self) -> nat {
        self.owner_balance + self.state_balance + self.vault_balance
    }

    /// The capability over the vault that a record pins.
    pub open spec fn vault_capability(self, state: VaultState) -> CapabilityView {
        CapabilityView { label: Label::Vault, owner: self.owner, bump: state.vault_bump }
    }

    /// Validation ahead of `initialize`: the owner signed, and both presented
    /// accounts are at the canonical addresses of the owner.  Gives the two
    /// canonical bumps.
    pub open spec fn admit_new(self) -> Result<InitializeBumps, VaultError> {
        if !self.signed {
            Err(VaultError::Unauthorized)
        } else {
            match (canonical_spec(Label::State, self.owner), canonical_spec(Label::Vault, self.owner)) {
                (Some((state_address, state_bump)), Some((vault_address, vault_bump))) => {
                    if state_address == self.state_address && vault_address == self.vault_address {
                        Ok(InitializeBumps { vault_state: state_bump, vault: vault_bump })
                    } else {
                        Err(VaultError::DerivationMismatch)
                    }
                },
                _ => Err(VaultError::DerivationMismatch),
            }
        }
    }

    /// Validation ahead of `deposit`, `withdraw` and `close`: the owner signed,
    /// the record exists, and both presented accounts are at the addresses
    /// that the recorded bumps derive for the owner.  Gives the record.
    pub open spec fn admit_active(self) -> Result<VaultState, VaultError> {
        if !self.signed {
            Err(VaultError::Unauthorized)
        } else {
            match self.record {
                Record::Absent => Err(VaultError::AccountNotFound),
                Record::Active(state) => {
                    if derive_spec(Label::State, self.owner, state.state_bump) != Some(
                        self.state_address,
                    ) {
                        Err(VaultError::DerivationMismatch)
                    } else if derive_spec(Label::Vault, self.owner, state.vault_bump) != Some(
                        self.vault_address,
                    ) {
                        Err(VaultError::DerivationMismatch)
                    } else {
                        Ok(state)
                    }
                },
            }
        }
    }

    /// Creates the record with the given bumps.  No balance changes.
    pub open spec fn open_record(self, bumps: InitializeBumps) -> Result<Custody, VaultError> {
        match self.record {
            Record::Active(_) => Err(VaultError::AlreadyExists),
            Record::Absent => Ok(
                Custody {
                    record: Record::Active(
                        VaultState { vault_bump: bumps.vault, state_bump: bumps.vault_state },
                    ),
                    ..self
                },
            ),
        }
    }

    /// Moves `amount` from the owner to the vault, on the owner's own
    /// signature.
    pub open spec fn fund(self, amount: nat) -> Result<(Custody, TransferView), VaultError> {
        if self.owner_balance < amount {
            Err(VaultError::InsufficientFunds)
        } else if self.vault_balance + amount > u64::MAX {
            Err(VaultError::BalanceOverflow)
        } else {
            Ok(
                (
                    Custody {
                        owner_balance: (self.owner_balance - amount) as nat,
                        vault_balance: self.vault_balance + amount,
                        ..self
                    },
                    TransferView {
                        from: self.owner,
                        to: self.vault_address,
                        lamports: amount,
                        authority: None,
                    },
                ),
            )
        }
    }

    /// Moves `amount` from the vault to the owner, on the capability that the
    /// record pins.
    pub open spec fn release(self, amount: nat) -> Result<(Custody, TransferView), VaultError> {
        match self.record {
            Record::Absent => Err(VaultError::AccountNotFound),
            Record::Active(state) => {
                if self.vault_balance < amount {
                    Err(VaultError::InsufficientFunds)
                } else if self.owner_balance + amount > u64::MAX {
                    Err(VaultError::BalanceOverflow)
                } else {
                    Ok(
                        (
                            Custody {
                                owner_balance: self.owner_balance + amount,
                                vault_balance: (self.vault_balance - amount) as nat,
                                ..self
                            },
                            TransferView {
                                from: self.vault_address,
                                to: self.owner,
                                lamports: amount,
                                authority: Some(self.vault_capability(state)),
                            },
                        ),
                    )
                }
            },
        }
    }

    /// Moves the vault's whole balance to the owner on the capability that the
    /// record pins, then deletes the record and hands its balance to the
    /// owner too.
    pub open spec fn drain(self) -> Result<(Custody, TransferView), VaultError> {
        match self.record {
            Record::Absent => Err(VaultError::AccountNotFound),
            Record::Active(state) => {
                if self.owner_balance + self.vault_balance + self.state_balance > u64::MAX {
                    Err(VaultError::BalanceOverflow)
                } else {
                    Ok(
                        (
                            Custody {
                                owner_balance: self.owner_balance + self.vault_balance
                                    + self.state_balance,
                                vault_balance: 0,
                                state_balance: 0,
                                record: Record::Absent,
                                ..self
                            },
                            TransferView {
                                from: self.vault_address,
                                to: self.owner,
                                lamports: self.vault_balance,
                                authority: Some(self.vault_capability(state)),
                            },
                        ),
                    )
                }
            },
        }
    }

    /// The instruction `initialize`: validation, then the record is created.
    pub open spec fn initialize(self) -> Result<Custody, VaultError> {
        match self.admit_new() {
            Ok(bumps) => self.open_record(bumps),
            Err(reason) => Err(reason),
        }
    }

    /// The instruction `deposit`: validation, then the owner funds the vault.
    pub open spec fn deposit(self, amount: nat) -> Result<(Custody, TransferView), VaultError> {
        match self.admit_active() {
            Ok(_) => self.fund(amount),
            Err(reason) => Err(reason),
        }
    }

    /// The instruction `withdraw`: validation, then the vault pays the owner.
    pub open spec fn withdraw(self, amount: nat) -> Result<(Custody, TransferView), VaultError> {
        match self.admit_active() {
            Ok(_) => self.release(amount),
            Err(reason) => Err(reason),
        }
    }

    /// The instruction `close`: validation, then the vault is drained and the
    /// record deleted.
    pub open spec fn close(self) -> Result<(Custody, TransferView), VaultError> {
        match self.admit_active() {
            Ok(_) => self.drain(),
            Err(reason) => Err(reason),
        }
    }
}

} // verus!
