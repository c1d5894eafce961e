//! What holds of the instructions taken together.

use vstd::prelude::*;
use crate::accounts::{Record, VaultState};
use crate::custody::Custody;
use crate::derivation::{canonical_spec, derive_spec, is_canonical, Label};
use crate::error::VaultError;

verus! {

/// Deposits made one after another, each on what the one before left.
pub open spec fn deposits(custody: Custody, amounts: Seq<nat>) -> Result<Custody, VaultError>
    decreases amounts.len(),
{
    if amounts.len() == 0 {
        Ok(custody)
    } else {
        match custody.deposit(amounts[0]) {
            Ok((funded, _)) => deposits(funded, amounts.drop_first()),
            Err(reason) => Err(reason),
        }
    }
}

/// The sum of the amounts.
pub open spec fn total(amounts: Seq<nat>) -> nat
    decreases amounts.len(),
{
    if amounts.len() == 0 {
        0
    } else {
        amounts[0] + total(amounts.drop_first())
    }
}

/// Whether an address is the owner's own or one derived from the owner's
/// identity.
pub open spec fn belongs_to(owner: Seq<u8>, address: Seq<u8>) -> bool {
    address == owner || exists|label: Label, bump: u8|
        derive_spec(label, owner, bump) == Some(address)
}

/// The canonical derivation of a label and an owner is the derivation at its
/// bump.
pub proof fn lemma_canonical_derives(label: Label, owner: Seq<u8>)
    ensures
        canonical_spec(label, owner) matches Some((address, bump)) ==> is_canonical(
            label,
            owner,
            bump,
        ) && derive_spec(label, owner, bump) == Some(address),
{
}

/// After `initialize`, the record holds the canonical bumps, the accounts
/// pass the validation of the other instructions, and no balance has
/// changed.
pub proof fn lemma_initialize_activates(custody: Custody)
    requires
        custody.initialize() is Ok,
    ensures
        ({
            let active = custody.initialize()->Ok_0;
            &&& custody.record is Absent
            &&& active.record matches Record::Active(state)
            &&& is_canonical(Label::Vault, custody.owner, state.vault_bump)
            &&& is_canonical(Label::State, custody.owner, state.state_bump)
            &&& active.admit_active() == Ok::<VaultState, VaultError>(state)
            &&& active == (Custody { record: active.record, ..custody })
        }),
{
    lemma_canonical_derives(Label::Vault, custody.owner);
    lemma_canonical_derives(Label::State, custody.owner);
}

/// Round trip: `initialize`, then a deposit of an amount that the owner
/// holds, then a withdrawal of the same amount leave the vault's balance and
/// the owner's balance as they were.  The amount must fit into the vault.
pub proof fn lemma_round_trip(custody: Custody, amount: nat)
    requires
        custody.wf(),
        custody.initialize() is Ok,
        amount <= custody.owner_balance,
        custody.vault_balance + amount <= u64::MAX,
    ensures
        ({
            let active = custody.initialize()->Ok_0;
            &&& active.deposit(amount) matches Ok((funded, paid_in))
            &&& funded.withdraw(amount) matches Ok((settled, paid_out))
            &&& paid_in.lamports == amount
            &&& paid_out.lamports == amount
            &&& settled == active
            &&& settled.vault_balance == custody.vault_balance
            &&& settled.owner_balance == custody.owner_balance
        }),
{
    lemma_initialize_activates(custody);
}

/// Deposits that all succeed move their total from the owner to the vault and
/// change nothing else.
pub proof fn lemma_deposits_total(custody: Custody, amounts: Seq<nat>)
    requires
        deposits(custody, amounts) is Ok,
    ensures
        total(amounts) <= custody.owner_balance,
        deposits(custody, amounts)->Ok_0 == (Custody {
            owner_balance: (custody.owner_balance - total(amounts)) as nat,
            vault_balance: custody.vault_balance + total(amounts),
            ..custody
        }),
    decreases amounts.len(),
{
    if amounts.len() > 0 {
        let funded = custody.deposit(amounts[0])->Ok_0.0;
        lemma_deposits_total(funded, amounts.drop_first());
    }
}

/// Full drain: after deposits totalling `D` into an active vault, `close`
/// transfers what the vault held before plus exactly `D` to the owner, hands
/// the owner the balance of the record's account too, and deletes the
/// record.  The three balances together must fit the native numeric width.
pub proof fn lemma_full_drain(custody: Custody, amounts: Seq<nat>)
    requires
        custody.wf(),
        custody.admit_active() is Ok,
        deposits(custody, amounts) is Ok,
        custody.owner_balance + custody.vault_balance + custody.state_balance <= u64::MAX,
    ensures
        ({
            let funded = deposits(custody, amounts)->Ok_0;
            &&& funded.close() matches Ok((closed, drained))
            &&& drained.lamports == custody.vault_balance + total(amounts)
            &&& drained.from == custody.vault_address
            &&& drained.to == custody.owner
            &&& closed.owner_balance == funded.owner_balance + custody.vault_balance + total(
                amounts,
            ) + custody.state_balance
            &&& closed.vault_balance == 0
            &&& closed.state_balance == 0
            &&& closed.record is Absent
        }),
{
    lemma_deposits_total(custody, amounts);
}

/// Isolation: an instruction that succeeds names no account of another
/// owner, neither among the accounts it reads and writes nor in the transfer
/// it asks for, unless that account's address is also the owner's own or
/// derived from the owner's identity.
pub proof fn lemma_isolation(custody: Custody, amount: nat, other: Seq<u8>, address: Seq<u8>)
    requires
        custody.initialize() is Ok || custody.deposit(amount) is Ok || custody.withdraw(amount)
            is Ok || custody.close() is Ok,
        other != custody.owner,
        belongs_to(other, address),
        !belongs_to(custody.owner, address),
    ensures
        address != custody.owner,
        address != custody.state_address,
        address != custody.vault_address,
        custody.deposit(amount) matches Ok((_, transfer)) ==> transfer.from != address
            && transfer.to != address,
        custody.withdraw(amount) matches Ok((_, transfer)) ==> transfer.from != address
            && transfer.to != address,
        custody.close() matches Ok((_, transfer)) ==> transfer.from != address && transfer.to
            != address,
{
    lemma_accounts_belong_to_signer(custody, amount);
}

/// An instruction that succeeds was given the owner's own accounts and leaves
/// their addresses as they were.
pub proof fn lemma_accounts_belong_to_signer(custody: Custody, amount: nat)
    requires
        custody.initialize() is Ok || custody.deposit(amount) is Ok || custody.withdraw(amount)
            is Ok || custody.close() is Ok,
    ensures
        custody.signed,
        belongs_to(custody.owner, custody.state_address),
        belongs_to(custody.owner, custody.vault_address),
        custody.initialize() matches Ok(after) ==> same_accounts(custody, after),
        custody.deposit(amount) matches Ok((after, _)) ==> same_accounts(custody, after),
        custody.withdraw(amount) matches Ok((after, _)) ==> same_accounts(custody, after),
        custody.close() matches Ok((after, _)) ==> same_accounts(custody, after),
{
    if custody.initialize() is Ok {
        lemma_canonical_derives(Label::Vault, custody.owner);
        lemma_canonical_derives(Label::State, custody.owner);
    }
}

/// Whether two custodies name the same three accounts with the same signer.
pub open spec fn same_accounts(before: Custody, after: Custody) -> bool {
    &&& after.owner == before.owner
    &&& after.signed == before.signed
    &&& after.state_address == before.state_address
    &&& after.vault_address == before.vault_address
}

/// An account at another address than the derived one is refused: with the
/// owner's signature and an existing record, an instruction whose state
/// account or vault is not at the address that the recorded bump derives
/// fails with `DerivationMismatch`.
pub proof fn lemma_mismatch_refused(custody: Custody, amount: nat, state: VaultState)
    requires
        custody.signed,
        custody.record == Record::Active(state),
        derive_spec(Label::State, custody.owner, state.state_bump) != Some(custody.state_address)
            || derive_spec(Label::Vault, custody.owner, state.vault_bump) != Some(
            custody.vault_address,
        ),
    ensures
        custody.deposit(amount) is Err,
        custody.deposit(amount)->Err_0 == VaultError::DerivationMismatch,
        custody.withdraw(amount) is Err,
        custody.withdraw(amount)->Err_0 == VaultError::DerivationMismatch,
        custody.close() is Err,
        custody.close()->Err_0 == VaultError::DerivationMismatch,
{
}

/// With the owner's signature, an `initialize` whose state account or vault
/// is not at the owner's canonical address fails with `DerivationMismatch`,
/// whether or not the owner has a record.
pub proof fn lemma_initialize_mismatch_refused(custody: Custody, label: Label)
    requires
        custody.signed,
        canonical_spec(label, custody.owner) matches Some((address, _)) ==> address != (
        match label {
            Label::State => custody.state_address,
            Label::Vault => custody.vault_address,
        }),
    ensures
        custody.initialize() is Err,
        custody.initialize()->Err_0 == VaultError::DerivationMismatch,
{
}

/// Double initialize: where `initialize` succeeded, a second `initialize` for
/// the same owner fails with `AlreadyExists`.
pub proof fn lemma_double_initialize(custody: Custody)
    requires
        custody.initialize() is Ok,
    ensures
        custody.initialize()->Ok_0.initialize() == Err::<Custody, VaultError>(
            VaultError::AlreadyExists,
        ),
{
}

/// Over-withdraw: on validated accounts, a withdrawal of more than the vault
/// holds fails with `InsufficientFunds`.
pub proof fn lemma_over_withdraw(custody: Custody, amount: nat)
    requires
        custody.admit_active() is Ok,
        amount > custody.vault_balance,
    ensures
        custody.withdraw(amount) is Err,
        custody.withdraw(amount)->Err_0 == VaultError::InsufficientFunds,
{
}

/// Before `initialize` and after `close` the owner has no vault: with the
/// owner's signature and no record, `deposit`, `withdraw` and `close` fail
/// with `AccountNotFound`.
pub proof fn lemma_absent_refuses(custody: Custody, amount: nat)
    requires
        custody.signed,
        custody.record is Absent,
    ensures
        custody.deposit(amount) is Err,
        custody.deposit(amount)->Err_0 == VaultError::AccountNotFound,
        custody.withdraw(amount) is Err,
        custody.withdraw(amount)->Err_0 == VaultError::AccountNotFound,
        custody.close() is Err,
        custody.close()->Err_0 == VaultError::AccountNotFound,
{
}

/// The life of a vault: `initialize` takes an owner without a record to one
/// with a record, `deposit` and `withdraw` need the record and leave it as it
/// is, and `close` takes the owner back to having none.
pub proof fn lemma_lifecycle(custody: Custody, amount: nat)
    ensures
        custody.initialize() matches Ok(after) ==> custody.record is Absent && after.record
            is Active,
        custody.deposit(amount) matches Ok((after, _)) ==> custody.record is Active
            && after.record == custody.record,
        custody.withdraw(amount) matches Ok((after, _)) ==> custody.record is Active
            && after.record == custody.record,
        custody.close() matches Ok((after, _)) ==> custody.record is Active && after.record
            is Absent,
{
}

/// No instruction makes or loses value: the three balances add up to what
/// they were, each still fits the native numeric width, and the transfer asked
/// for is the change of the vault's balance.
pub proof fn lemma_value_conserved(custody: Custody, amount: nat)
    requires
        custody.wf(),
    ensures
        custody.initialize() matches Ok(after) ==> after.wf() && after.total() == custody.total()
            && after.vault_balance == custody.vault_balance,
        custody.deposit(amount) matches Ok((after, transfer)) ==> after.wf() && after.total()
            == custody.total() && transfer.lamports == amount && after.vault_balance
            == custody.vault_balance + amount,
        custody.withdraw(amount) matches Ok((after, transfer)) ==> after.wf() && after.total()
            == custody.total() && transfer.lamports == amount && after.vault_balance
            == custody.vault_balance - amount,
        custody.close() matches Ok((after, transfer)) ==> after.wf() && after.total()
            == custody.total() && transfer.lamports == custody.vault_balance
            && after.vault_balance == 0,
{
}

} // verus!
