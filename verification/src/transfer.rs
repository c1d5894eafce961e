//! The transfer that an instruction asks the ledger runtime to carry out.

use vstd::prelude::*;
use crate::address::Address;
use crate::derivation::{Capability, CapabilityView};

verus! {

/// A movement of native value between two accounts.  The paying account
/// signs it: the owner with the signature on the instruction, the vault with
/// the capability in `authority`.
#[derive(Clone, Copy, Debug, PartialEq, Eq)]
pub struct Transfer {
    pub from: Address,
    pub to: Address,
    pub lamports: u64,
    /// The seeds that sign for `from`, where it is a derived account.
    pub authority: Option<Capability>,
}

/// The model of a transfer.
pub struct TransferView {
    pub from: Seq<u8>,
    pub to: Seq<u8>,
    pub lamports: nat,
    pub authority: Option<CapabilityView>,
}

impl View for Transfer {
    type V = TransferView;

    open spec fn view(&self) -> TransferView {
        TransferView {
            from: self.from@,
            to: self.to@,
            lamports: self.lamports as nat,
            authority: match self.authority {
                Some(capability) => Some(capability@),
                None => None,
            },
        }
    }
}

} // verus!
