use vault::{
    close, deposit, initialize, withdraw, Address, Capability, CloseAccounts, Initialize,
    InitializeBumps, Label, Payment, Record, Signer, StateAccount, SystemAccount, Transfer,
    VaultError, VaultState,
};

const OWNER: [u8; 32] = [
    18, 0, 0, 0, 0, 0, 0, 0, 0, 0, 0, 0, 0, 0, 0, 0, 0, 0, 0, 0, 0, 0, 0, 0, 0, 0, 0, 0, 0, 0, 0, 0,
];

const OWNER_VAULT: [u8; 32] = [
    61, 208, 241, 199, 219, 190, 93, 41, 117, 82, 143, 139, 224, 78, 208, 2, 48, 102, 41, 91, 164,
    198, 168, 63, 221, 72, 12, 97, 115, 129, 241, 194,
];

const OWNER_STATE: [u8; 32] = [
    45, 222, 175, 77, 147, 81, 52, 106, 21, 219, 156, 250, 122, 250, 98, 183, 135, 90, 36, 56, 244,
    253, 175, 80, 121, 55, 55, 239, 145, 141, 59, 16,
];

const OTHER: [u8; 32] = [7; 32];

const OTHER_VAULT: [u8; 32] = [
    125, 252, 122, 139, 58, 134, 53, 174, 176, 78, 59, 168, 37, 234, 146, 93, 18, 76, 253, 104, 61,
    224, 69, 46, 156, 136, 127, 16, 94, 177, 181, 16,
];

const OTHER_VAULT_AT_254: [u8; 32] = [
    34, 138, 28, 71, 219, 79, 131, 166, 251, 7, 132, 66, 10, 145, 8, 17, 196, 72, 234, 61, 140, 76,
    135, 205, 152, 209, 129, 7, 41, 194, 248, 135,
];

const OTHER_STATE: [u8; 32] = [
    158, 75, 239, 205, 140, 68, 213, 63, 244, 58, 85, 43, 191, 67, 155, 69, 190, 29, 51, 65, 206,
    156, 157, 98, 202, 141, 223, 0, 165, 60, 171, 220,
];

const PINNED: Record = Record::Active(VaultState { vault_bump: 253, state_bump: 254 });

fn user(lamports: u64) -> Signer {
    Signer { key: Address::new(OWNER), lamports, is_signer: true }
}

fn state(lamports: u64, record: Record) -> StateAccount {
    StateAccount { key: Address::new(OWNER_STATE), lamports, record }
}

fn vault_of_owner(lamports: u64) -> SystemAccount {
    SystemAccount { key: Address::new(OWNER_VAULT), lamports }
}

fn payment(owner: u64, residual: u64, held: u64) -> Payment {
    Payment { user: user(owner), vault_state: state(residual, PINNED), vault: vault_of_owner(held) }
}

fn closing(owner: u64, residual: u64, held: u64) -> CloseAccounts {
    CloseAccounts {
        user: user(owner),
        vault_state: state(residual, PINNED),
        vault: vault_of_owner(held),
    }
}

fn fresh(owner: u64, residual: u64, held: u64) -> Initialize {
    Initialize {
        user: user(owner),
        vault_state: state(residual, Record::Absent),
        vault: vault_of_owner(held),
    }
}

fn vault_capability() -> Capability {
    Capability::new(Label::Vault, Address::new(OWNER), 253)
}

#[test]
fn a_record_holds_two_bytes() {
    assert_eq!(vault::accounts::VAULT_STATE_SPACE, 2);
}

#[test]
fn initialize_pins_the_canonical_bumps() {
    let mut accounts = fresh(5_000, 900, 0);
    assert_eq!(accounts.validate(), Ok(InitializeBumps { vault_state: 254, vault: 253 }));
    assert_eq!(initialize(&mut accounts), Ok(()));
    assert_eq!(accounts.vault_state.record, PINNED);
    // no value moves
    assert_eq!(accounts.user.lamports, 5_000);
    assert_eq!(accounts.vault_state.lamports, 900);
    assert_eq!(accounts.vault.lamports, 0);
    assert_eq!(accounts.user.key, Address::new(OWNER));
    assert_eq!(accounts.vault_state.key, Address::new(OWNER_STATE));
    assert_eq!(accounts.vault.key, Address::new(OWNER_VAULT));
}

#[test]
fn initialize_twice_fails_with_already_exists() {
    let mut accounts = fresh(5_000, 900, 0);
    assert_eq!(initialize(&mut accounts), Ok(()));
    let after_first = accounts;
    assert_eq!(initialize(&mut accounts), Err(VaultError::AlreadyExists));
    assert_eq!(accounts, after_first);
}

#[test]
fn initialize_needs_the_owner_signature() {
    let mut accounts = fresh(5_000, 900, 0);
    accounts.user.is_signer = false;
    let before = accounts;
    assert_eq!(accounts.validate(), Err(VaultError::Unauthorized));
    assert_eq!(initialize(&mut accounts), Err(VaultError::Unauthorized));
    assert_eq!(accounts, before);
}

#[test]
fn initialize_refuses_a_state_account_at_another_address() {
    let mut accounts = fresh(5_000, 900, 0);
    accounts.vault_state.key = Address::new(OTHER_STATE);
    let before = accounts;
    assert_eq!(initialize(&mut accounts), Err(VaultError::DerivationMismatch));
    assert_eq!(accounts, before);
}

#[test]
fn initialize_refuses_a_vault_at_another_address() {
    let mut accounts = fresh(5_000, 900, 0);
    accounts.vault.key = Address::new(OTHER_VAULT);
    let before = accounts;
    assert_eq!(initialize(&mut accounts), Err(VaultError::DerivationMismatch));
    assert_eq!(accounts, before);
}

#[test]
fn initialize_refuses_a_vault_derived_at_a_bump_that_is_not_canonical() {
    let mut accounts = Initialize {
        user: Signer { key: Address::new(OTHER), lamports: 10, is_signer: true },
        vault_state: StateAccount {
            key: Address::new(OTHER_STATE),
            lamports: 0,
            record: Record::Absent,
        },
        vault: SystemAccount { key: Address::new(OTHER_VAULT_AT_254), lamports: 0 },
    };
    assert_eq!(initialize(&mut accounts), Err(VaultError::DerivationMismatch));
    accounts.vault.key = Address::new(OTHER_VAULT);
    assert_eq!(initialize(&mut accounts), Ok(()));
    assert_eq!(
        accounts.vault_state.record,
        Record::Active(VaultState { vault_bump: 255, state_bump: 253 })
    );
}

#[test]
fn mismatch_comes_before_already_exists() {
    let mut accounts = fresh(5_000, 900, 0);
    accounts.vault_state.record = PINNED;
    accounts.vault.key = Address::new(OTHER_VAULT);
    assert_eq!(initialize(&mut accounts), Err(VaultError::DerivationMismatch));
}

#[test]
fn initialize_method_stores_the_bumps_it_is_given() {
    let mut accounts = fresh(1, 2, 3);
    assert_eq!(accounts.initialize(&InitializeBumps { vault_state: 9, vault: 8 }), Ok(()));
    assert_eq!(
        accounts.vault_state.record,
        Record::Active(VaultState { vault_bump: 8, state_bump: 9 })
    );
    assert_eq!(
        accounts.initialize(&InitializeBumps { vault_state: 1, vault: 2 }),
        Err(VaultError::AlreadyExists)
    );
    assert_eq!(
        accounts.vault_state.record,
        Record::Active(VaultState { vault_bump: 8, state_bump: 9 })
    );
}

#[test]
fn deposit_moves_the_amount_to_the_vault() {
    let mut accounts = payment(5_000, 900, 10);
    let transfer = deposit(&mut accounts, 1_200).unwrap();
    assert_eq!(
        transfer,
        Transfer {
            from: Address::new(OWNER),
            to: Address::new(OWNER_VAULT),
            lamports: 1_200,
            authority: None,
        }
    );
    assert_eq!(accounts.user.lamports, 3_800);
    assert_eq!(accounts.vault.lamports, 1_210);
    assert_eq!(accounts.vault_state.lamports, 900);
    assert_eq!(accounts.vault_state.record, PINNED);
}

#[test]
fn deposit_of_the_whole_balance_and_of_nothing() {
    let mut accounts = payment(5_000, 900, 10);
    assert_eq!(deposit(&mut accounts, 0).unwrap().lamports, 0);
    assert_eq!(accounts, payment(5_000, 900, 10));
    assert_eq!(deposit(&mut accounts, 5_000).unwrap().lamports, 5_000);
    assert_eq!(accounts, payment(0, 900, 5_010));
}

#[test]
fn deposit_of_more_than_the_owner_holds_fails() {
    let mut accounts = payment(5_000, 900, 10);
    assert_eq!(deposit(&mut accounts, 5_001), Err(VaultError::InsufficientFunds));
    assert_eq!(accounts, payment(5_000, 900, 10));
    assert_eq!(accounts.deposit(u64::MAX), Err(VaultError::InsufficientFunds));
    assert_eq!(accounts, payment(5_000, 900, 10));
}

#[test]
fn deposit_that_overflows_the_vault_fails() {
    let mut accounts = payment(5_000, 900, u64::MAX - 99);
    assert_eq!(deposit(&mut accounts, 100), Err(VaultError::BalanceOverflow));
    assert_eq!(accounts, payment(5_000, 900, u64::MAX - 99));
    assert_eq!(deposit(&mut accounts, 99).unwrap().lamports, 99);
    assert_eq!(accounts, payment(4_901, 900, u64::MAX));
}

#[test]
fn deposit_before_initialize_fails_with_account_not_found() {
    let mut accounts = payment(5_000, 900, 10);
    accounts.vault_state.record = Record::Absent;
    let before = accounts;
    assert_eq!(accounts.validate(), Err(VaultError::AccountNotFound));
    assert_eq!(deposit(&mut accounts, 1), Err(VaultError::AccountNotFound));
    assert_eq!(accounts, before);
}

#[test]
fn deposit_needs_the_owner_signature() {
    let mut accounts = payment(5_000, 900, 10);
    accounts.user.is_signer = false;
    let before = accounts;
    assert_eq!(deposit(&mut accounts, 1), Err(VaultError::Unauthorized));
    assert_eq!(accounts, before);
}

#[test]
fn deposit_refuses_accounts_at_other_addresses() {
    let mut wrong_vault = payment(5_000, 900, 10);
    wrong_vault.vault.key = Address::new(OTHER_VAULT);
    let before = wrong_vault;
    assert_eq!(deposit(&mut wrong_vault, 1), Err(VaultError::DerivationMismatch));
    assert_eq!(wrong_vault, before);

    let mut wrong_state = payment(5_000, 900, 10);
    wrong_state.vault_state.key = Address::new(OTHER_STATE);
    assert_eq!(deposit(&mut wrong_state, 1), Err(VaultError::DerivationMismatch));

    let mut wrong_bump = payment(5_000, 900, 10);
    wrong_bump.vault_state.record = Record::Active(VaultState { vault_bump: 252, state_bump: 254 });
    assert_eq!(deposit(&mut wrong_bump, 1), Err(VaultError::DerivationMismatch));
}

#[test]
fn withdraw_moves_the_amount_to_the_owner() {
    let mut accounts = payment(5_000, 900, 1_000);
    let transfer = withdraw(&mut accounts, 400).unwrap();
    assert_eq!(
        transfer,
        Transfer {
            from: Address::new(OWNER_VAULT),
            to: Address::new(OWNER),
            lamports: 400,
            authority: Some(vault_capability()),
        }
    );
    assert_eq!(accounts, payment(5_400, 900, 600));
}

#[test]
fn withdraw_of_the_whole_vault() {
    let mut accounts = payment(5_000, 900, 1_000);
    assert_eq!(withdraw(&mut accounts, 1_000).unwrap().lamports, 1_000);
    assert_eq!(accounts, payment(6_000, 900, 0));
}

#[test]
fn withdraw_of_more_than_the_vault_holds_fails() {
    let mut accounts = payment(5_000, 900, 1_000);
    assert_eq!(withdraw(&mut accounts, 1_001), Err(VaultError::InsufficientFunds));
    assert_eq!(accounts, payment(5_000, 900, 1_000));
    assert_eq!(withdraw(&mut accounts, u64::MAX), Err(VaultError::InsufficientFunds));
    assert_eq!(accounts, payment(5_000, 900, 1_000));
    assert_eq!(accounts.withdraw(1_001), Err(VaultError::InsufficientFunds));
    assert_eq!(accounts, payment(5_000, 900, 1_000));
}

#[test]
fn withdraw_that_overflows_the_owner_fails() {
    let mut accounts = payment(u64::MAX - 5, 900, 1_000);
    assert_eq!(withdraw(&mut accounts, 6), Err(VaultError::BalanceOverflow));
    assert_eq!(accounts, payment(u64::MAX - 5, 900, 1_000));
    assert_eq!(withdraw(&mut accounts, 5).unwrap().lamports, 5);
    assert_eq!(accounts, payment(u64::MAX, 900, 995));
}

#[test]
fn withdraw_before_initialize_fails_with_account_not_found() {
    let mut accounts = payment(5_000, 900, 1_000);
    accounts.vault_state.record = Record::Absent;
    let before = accounts;
    assert_eq!(withdraw(&mut accounts, 1), Err(VaultError::AccountNotFound));
    assert_eq!(accounts.withdraw(1), Err(VaultError::AccountNotFound));
    assert_eq!(accounts, before);
}

#[test]
fn withdraw_needs_the_owner_signature() {
    let mut accounts = payment(5_000, 900, 1_000);
    accounts.user.is_signer = false;
    let before = accounts;
    assert_eq!(withdraw(&mut accounts, 1), Err(VaultError::Unauthorized));
    assert_eq!(accounts, before);
}

#[test]
fn withdraw_by_another_owner_is_refused() {
    // the other owner signs and names the first owner's record and vault
    let mut accounts = payment(5_000, 900, 1_000);
    accounts.user = Signer { key: Address::new(OTHER), lamports: 1, is_signer: true };
    let before = accounts;
    assert_eq!(withdraw(&mut accounts, 1_000), Err(VaultError::DerivationMismatch));
    assert_eq!(accounts, before);
}

#[test]
fn withdraw_from_another_owners_vault_is_refused() {
    let mut accounts = payment(5_000, 900, 1_000);
    accounts.vault = SystemAccount { key: Address::new(OTHER_VAULT), lamports: 77 };
    let before = accounts;
    assert_eq!(withdraw(&mut accounts, 1), Err(VaultError::DerivationMismatch));
    assert_eq!(accounts, before);
}

#[test]
fn close_drains_the_vault_and_deletes_the_record() {
    let mut accounts = closing(5_000, 900, 1_000);
    assert_eq!(accounts.validate(), Ok(VaultState { vault_bump: 253, state_bump: 254 }));
    let transfer = close(&mut accounts).unwrap();
    assert_eq!(
        transfer,
        Transfer {
            from: Address::new(OWNER_VAULT),
            to: Address::new(OWNER),
            lamports: 1_000,
            authority: Some(vault_capability()),
        }
    );
    assert_eq!(accounts.user.lamports, 6_900);
    assert_eq!(accounts.vault.lamports, 0);
    assert_eq!(accounts.vault_state.lamports, 0);
    assert_eq!(accounts.vault_state.record, Record::Absent);
}

#[test]
fn close_of_an_empty_vault() {
    let mut accounts = closing(5_000, 0, 0);
    assert_eq!(close(&mut accounts).unwrap().lamports, 0);
    assert_eq!(accounts.user.lamports, 5_000);
    assert_eq!(accounts.vault_state.record, Record::Absent);
}

#[test]
fn close_twice_fails_with_account_not_found() {
    let mut accounts = closing(5_000, 900, 1_000);
    assert!(close(&mut accounts).is_ok());
    let closed = accounts;
    assert_eq!(close(&mut accounts), Err(VaultError::AccountNotFound));
    assert_eq!(accounts.close(), Err(VaultError::AccountNotFound));
    assert_eq!(accounts, closed);
}

#[test]
fn close_that_overflows_the_owner_fails() {
    let mut by_the_vault = closing(u64::MAX - 999, 0, 1_000);
    assert_eq!(close(&mut by_the_vault), Err(VaultError::BalanceOverflow));
    assert_eq!(by_the_vault, closing(u64::MAX - 999, 0, 1_000));

    let mut by_the_residual = closing(u64::MAX - 1_000, 1, 1_000);
    assert_eq!(close(&mut by_the_residual), Err(VaultError::BalanceOverflow));
    assert_eq!(by_the_residual, closing(u64::MAX - 1_000, 1, 1_000));

    let mut fits = closing(u64::MAX - 1_001, 1, 1_000);
    assert_eq!(close(&mut fits).unwrap().lamports, 1_000);
    assert_eq!(fits.user.lamports, u64::MAX);
}

#[test]
fn close_needs_the_owner_signature() {
    let mut accounts = closing(5_000, 900, 1_000);
    accounts.user.is_signer = false;
    let before = accounts;
    assert_eq!(close(&mut accounts), Err(VaultError::Unauthorized));
    assert_eq!(accounts, before);
}

#[test]
fn close_refuses_accounts_at_other_addresses() {
    let mut wrong_vault = closing(5_000, 900, 1_000);
    wrong_vault.vault.key = Address::new(OTHER_VAULT);
    let before = wrong_vault;
    assert_eq!(close(&mut wrong_vault), Err(VaultError::DerivationMismatch));
    assert_eq!(wrong_vault, before);

    let mut wrong_state = closing(5_000, 900, 1_000);
    wrong_state.vault_state.key = Address::new(OTHER_STATE);
    assert_eq!(close(&mut wrong_state), Err(VaultError::DerivationMismatch));

    let mut other_signer = closing(5_000, 900, 1_000);
    other_signer.user.key = Address::new(OTHER);
    assert_eq!(close(&mut other_signer), Err(VaultError::DerivationMismatch));
}

#[test]
fn signature_is_checked_before_the_record_and_the_addresses() {
    let mut accounts = payment(5_000, 900, 1_000);
    accounts.user.is_signer = false;
    accounts.vault_state.record = Record::Absent;
    accounts.vault.key = Address::new(OTHER_VAULT);
    assert_eq!(deposit(&mut accounts, 1), Err(VaultError::Unauthorized));
    accounts.user.is_signer = true;
    assert_eq!(deposit(&mut accounts, 1), Err(VaultError::AccountNotFound));
    accounts.vault_state.record = PINNED;
    assert_eq!(deposit(&mut accounts, 1), Err(VaultError::DerivationMismatch));
    accounts.vault.key = Address::new(OWNER_VAULT);
    assert_eq!(deposit(&mut accounts, 5_001), Err(VaultError::InsufficientFunds));
    assert!(deposit(&mut accounts, 5_000).is_ok());
}
