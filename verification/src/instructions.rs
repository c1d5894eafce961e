//! The four instructions: `initialize`, `deposit`, `withdraw` and `close`.
//!
//! Each instruction first validates the accounts it was given against the
//! owner's derivations, then changes the balances and the record as the
//! ledger will, and returns the transfer that the ledger runtime has to carry
//! out.  An instruction that fails changes nothing.

use vstd::prelude::*;
use crate::accounts::{InitializeBumps, Record, Signer, StateAccount, SystemAccount, VaultState};
use crate::custody::{custody_of, Custody};
use crate::derivation::{canonical_bump, Capability, Label};
use crate::pubkey::on_curve;
use crate::error::VaultError;
use crate::transfer::Transfer;

verus! {

/// The accounts of `initialize`.
#[derive(Clone, Copy, Debug, PartialEq, Eq)]
pub struct Initialize {
    pub user: Signer,
    pub vault_state: StateAccount,
    pub vault: SystemAccount,
}

/// The accounts of `deposit` and of `withdraw`.
#[derive(Clone, Copy, Debug, PartialEq, Eq)]
pub struct Payment {
    pub user: Signer,
    pub vault_state: StateAccount,
    pub vault: SystemAccount,
}

/// The accounts of `close`.
#[derive(Clone, Copy, Debug, PartialEq, Eq)]
pub struct CloseAccounts {
    pub user: Signer,
    pub vault_state: StateAccount,
    pub vault: SystemAccount,
}

impl View for Initialize {
    type V = Custody;

    open spec fn view(&self) -> Custody {
        custody_of(self.user, self.vault_state, self.vault)
    }
}

impl View for Payment {
    type V = Custody;

    open spec fn view(&self) -> Custody {
        custody_of(self.user, self.vault_state, self.vault)
    }
}

impl View for CloseAccounts {
    type V = Custody;

    open spec fn view(&self) -> Custody {
        custody_of(self.user, self.vault_state, self.vault)
    }
}

/// Validates the accounts of an instruction on an existing vault.
fn admit_active(user: &Signer, vault_state: &StateAccount, vault: &SystemAccount) -> (admitted:
    Result<VaultState, VaultError>)
    ensures
        admitted == custody_of(*user, *vault_state, *vault).admit_active(),
        admitted is Ok ==> !on_curve(vault_state.key@) && !on_curve(vault.key@),
{
    if !user.is_signer {
        return Err(VaultError::Unauthorized);
    }
    match vault_state.record {
        Record::Absent => Err(VaultError::AccountNotFound),
        Record::Active(state) => {
            let of_state = Capability::new(Label::State, user.key, state.state_bump);
            if of_state.validate(&vault_state.key).is_err() {
                return Err(VaultError::DerivationMismatch);
            }
            let of_vault = Capability::new(Label::Vault, user.key, state.vault_bump);
            if of_vault.validate(&vault.key).is_err() {
                return Err(VaultError::DerivationMismatch);
            }
            Ok(state)
        },
    }
}

impl Initialize {
    /// Validates the accounts: the owner signed, and the two accounts are at
    /// the owner's canonical addresses, for which no signing key exists.
    /// Returns the canonical bumps.
    pub fn validate(&self) -> (admitted: Result<InitializeBumps, VaultError>)
        ensures
            admitted == self@.admit_new(),
            admitted is Ok ==> !on_curve(self.vault_state.key@) && !on_curve(self.vault.key@),
    {
        if !self.user.is_signer {
            return Err(VaultError::Unauthorized);
        }
        let of_state = canonical_bump(Label::State, &self.user.key);
        let of_vault = canonical_bump(Label::Vault, &self.user.key);
        match (of_state, of_vault) {
            (Some((state_address, state_bump)), Some((vault_address, vault_bump))) => {
                if state_address.same_as(&self.vault_state.key) && vault_address.same_as(
                    &self.vault.key,
                ) {
                    Ok(InitializeBumps { vault_state: state_bump, vault: vault_bump })
                } else {
                    Err(VaultError::DerivationMismatch)
                }
            },
            _ => Err(VaultError::DerivationMismatch),
        }
    }

    /// Creates the owner's record and stores the bumps in it.  Fails with
    /// `AlreadyExists` where the record exists.
    pub fn initialize(&mut self, bumps: &InitializeBumps) -> (done: Result<(), VaultError>)
        ensures
            match old(self)@.open_record(*bumps) {
                Ok(after) => done is Ok && final(self)@ == after,
                Err(reason) => done == Err::<(), VaultError>(reason) && final(self)@ == old(self)@,
            },
    {
        match self.vault_state.record {
            Record::Active(_) => Err(VaultError::AlreadyExists),
            Record::Absent => {
                self.vault_state.record = Record::Active(
                    VaultState { vault_bump: bumps.vault, state_bump: bumps.vault_state },
                );
                Ok(())
            },
        }
    }
}

impl Payment {
    /// Validates the accounts against the bumps in the record: the owner
    /// signed, the record exists, and the two accounts are at the addresses
    /// that its bumps derive, for which no signing key exists.
    pub fn validate(&self) -> (admitted: Result<VaultState, VaultError>)
        ensures
            admitted == self@.admit_active(),
            admitted is Ok ==> !on_curve(self.vault_state.key@) && !on_curve(self.vault.key@),
    {
        admit_active(&self.user, &self.vault_state, &self.vault)
    }

    /// Moves `amount` from the owner to the vault.  The owner signs the
    /// transfer.
    pub fn deposit(&mut self, amount: u64) -> (done: Result<Transfer, VaultError>)
        ensures
            match old(self)@.fund(amount as nat) {
                Ok((after, transfer)) => done is Ok && done->Ok_0@ == transfer && final(self)@
                    == after,
                Err(reason) => done == Err::<Transfer, VaultError>(reason) && final(self)@ == old(
                    self,
                )@,
            },
    {
        let remaining = match self.user.lamports.checked_sub(amount) {
            Some(remaining) => remaining,
            None => { return Err(VaultError::InsufficientFunds); },
        };
        let held = match self.vault.lamports.checked_add(amount) {
            Some(held) => held,
            None => { return Err(VaultError::BalanceOverflow); },
        };
        self.user.lamports = remaining;
        self.vault.lamports = held;
        Ok(Transfer { from: self.user.key, to: self.vault.key, lamports: amount, authority: None })
    }

    /// Moves `amount` from the vault to the owner.  The vault signs the
    /// transfer with the capability that the record pins.
    pub fn withdraw(&mut self, amount: u64) -> (done: Result<Transfer, VaultError>)
        ensures
            match old(self)@.release(amount as nat) {
                Ok((after, transfer)) => done is Ok && done->Ok_0@ == transfer && final(self)@
                    == after,
                Err(reason) => done == Err::<Transfer, VaultError>(reason) && final(self)@ == old(
                    self,
                )@,
            },
            old(self).vault_state.record is Active && amount > old(self).vault.lamports ==> done
                == Err::<Transfer, VaultError>(VaultError::InsufficientFunds),
    {
        let state = match self.vault_state.record {
            Record::Active(state) => state,
            Record::Absent => { return Err(VaultError::AccountNotFound); },
        };
        let remaining = match self.vault.lamports.checked_sub(amount) {
            Some(remaining) => remaining,
            None => { return Err(VaultError::InsufficientFunds); },
        };
        let held = match self.user.lamports.checked_add(amount) {
            Some(held) => held,
            None => { return Err(VaultError::BalanceOverflow); },
        };
        self.vault.lamports = remaining;
        self.user.lamports = held;
        Ok(
            Transfer {
                from: self.vault.key,
                to: self.user.key,
                lamports: amount,
                authority: Some(Capability::new(Label::Vault, self.user.key, state.vault_bump)),
            },
        )
    }
}

impl CloseAccounts {
    /// Validates the accounts against the bumps in the record: the owner
    /// signed, the record exists, and the two accounts are at the addresses
    /// that its bumps derive, for which no signing key exists.
    pub fn validate(&self) -> (admitted: Result<VaultState, VaultError>)
        ensures
            admitted == self@.admit_active(),
            admitted is Ok ==> !on_curve(self.vault_state.key@) && !on_curve(self.vault.key@),
    {
        admit_active(&self.user, &self.vault_state, &self.vault)
    }

    /// Moves the vault's whole balance to the owner, signed with the
    /// capability that the record pins, then deletes the record and hands the
    /// balance of its account to the owner.  Returns the transfer out of the
    /// vault.
    pub fn close(&mut self) -> (done: Result<Transfer, VaultError>)
        ensures
            match old(self)@.drain() {
                Ok((after, transfer)) => done is Ok && done->Ok_0@ == transfer && final(self)@
                    == after,
                Err(reason) => done == Err::<Transfer, VaultError>(reason) && final(self)@ == old(
                    self,
                )@,
            },
    {
        let state = match self.vault_state.record {
            Record::Active(state) => state,
            Record::Absent => { return Err(VaultError::AccountNotFound); },
        };
        let drained = self.vault.lamports;
        let paid = match self.user.lamports.checked_add(drained) {
            Some(paid) => paid,
            None => { return Err(VaultError::BalanceOverflow); },
        };
        let refunded = match paid.checked_add(self.vault_state.lamports) {
            Some(refunded) => refunded,
            None => { return Err(VaultError::BalanceOverflow); },
        };
        self.user.lamports = refunded;
        self.vault.lamports = 0;
        self.vault_state.lamports = 0;
        self.vault_state.record = Record::Absent;
        Ok(
            Transfer {
                from: self.vault.key,
                to: self.user.key,
                lamports: drained,
                authority: Some(Capability::new(Label::Vault, self.user.key, state.vault_bump)),
            },
        )
    }
}

/// The instruction `initialize`: validates the accounts, then creates the
/// owner's record with the canonical bumps.  No value moves.
pub fn initialize(accounts: &mut Initialize) -> (done: Result<(), VaultError>)
    ensures
        match old(accounts)@.initialize() {
            Ok(after) => done is Ok && final(accounts)@ == after,
            Err(reason) => done == Err::<(), VaultError>(reason) && final(accounts)@ == old(
                accounts,
            )@,
        },
        done is Ok ==> !on_curve(old(accounts).vault_state.key@) && !on_curve(
            old(accounts).vault.key@,
        ),
{
    match accounts.validate() {
        Ok(bumps) => accounts.initialize(&bumps),
        Err(reason) => Err(reason),
    }
}

/// The instruction `deposit`: validates the accounts, then moves `amount` from
/// the owner to the vault.
pub fn deposit(accounts: &mut Payment, amount: u64) -> (done: Result<Transfer, VaultError>)
    ensures
        match old(accounts)@.deposit(amount as nat) {
            Ok((after, transfer)) => done is Ok && done->Ok_0@ == transfer && final(accounts)@
                == after,
            Err(reason) => done == Err::<Transfer, VaultError>(reason) && final(accounts)@ == old(
                accounts,
            )@,
        },
        done is Ok ==> !on_curve(old(accounts).vault_state.key@) && !on_curve(
            old(accounts).vault.key@,
        ),
{
    match accounts.validate() {
        Ok(_) => accounts.deposit(amount),
        Err(reason) => Err(reason),
    }
}

/// The instruction `withdraw`: validates the accounts, then moves `amount`
/// from the vault to the owner.  An amount above the vault's balance fails
/// with `InsufficientFunds`.
pub fn withdraw(accounts: &mut Payment, amount: u64) -> (done: Result<Transfer, VaultError>)
    ensures
        match old(accounts)@.withdraw(amount as nat) {
            Ok((after, transfer)) => done is Ok && done->Ok_0@ == transfer && final(accounts)@
                == after,
            Err(reason) => done == Err::<Transfer, VaultError>(reason) && final(accounts)@ == old(
                accounts,
            )@,
        },
        done is Ok ==> !on_curve(old(accounts).vault_state.key@) && !on_curve(
            old(accounts).vault.key@,
        ),
        old(accounts)@.admit_active() is Ok && amount > old(accounts).vault.lamports ==> done
            == Err::<Transfer, VaultError>(VaultError::InsufficientFunds) && final(accounts)@
            == old(accounts)@,
{
    match accounts.validate() {
        Ok(_) => accounts.withdraw(amount),
        Err(reason) => Err(reason),
    }
}

/// The instruction `close`: validates the accounts, then drains the vault to
/// the owner and deletes the record.
pub fn close(accounts: &mut CloseAccounts) -> (done: Result<Transfer, VaultError>)
    ensures
        match old(accounts)@.close() {
            Ok((after, transfer)) => done is Ok && done->Ok_0@ == transfer && final(accounts)@
                == after,
            Err(reason) => done == Err::<Transfer, VaultError>(reason) && final(accounts)@ == old(
                accounts,
            )@,
        },
        done is Ok ==> !on_curve(old(accounts).vault_state.key@) && !on_curve(
            old(accounts).vault.key@,
        ),
{
    match accounts.validate() {
        Ok(_) => accounts.close(),
        Err(reason) => Err(reason),
    }
}

} // verus!
