//! Per-owner custody of native value on a shared ledger.
//!
//! Every owner controls two accounts whose addresses are derived from the
//! owner's identity: a vault that only holds a balance, and a state record
//! that remembers the bumps the two addresses were derived with.  The crate
//! decides, for each of the four instructions, whether the presented accounts
//! are the owner's, what the balances become, and which transfer the ledger
//! runtime has to carry out.

pub mod accounts;
pub mod address;
pub mod custody;
pub mod derivation;
pub mod error;
pub mod instructions;
pub mod laws;
pub mod pubkey;
pub mod transfer;

pub use accounts::{InitializeBumps, Record, Signer, StateAccount, SystemAccount, VaultState};
pub use address::Address;
pub use derivation::{canonical_bump, has_signing_key, program_id, Capability, Label};
pub use error::VaultError;
pub use instructions::{close, deposit, initialize, withdraw, CloseAccounts, Initialize, Payment};
pub use transfer::Transfer;
