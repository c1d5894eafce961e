//! Deterministic derivation of account addresses.
//!
//! An address is derived from a label, the owner's identity and a bump, under
//! the identity of the controlling program.  A derived address never is the
//! address of a signing key, so only the program can move value out of the
//! account it names: it does so by presenting the seeds the address was
//! derived from.

use vstd::prelude::*;
use crate::address::Address;
use crate::error::VaultError;
use crate::pubkey::{
    create_program_address, is_on_curve, on_curve, program_address, seed_bytes,
    try_find_program_address, with_bump,
};

verus! {

/// The fixed labels that tell an owner's two accounts apart.
#[derive(Clone, Copy, Debug, PartialEq, Eq, Structural)]
pub enum Label {
    /// The account that holds the owner's value.
    Vault,
    /// The record of the bumps.
    State,
}

impl Label {
    /// The seed of the label: the ASCII bytes of `vault` or of `state`.
    pub open spec fn bytes_spec(self) -> Seq<u8> {
        match self {
            Label::Vault => seq![118u8, 97u8, 117u8, 108u8, 116u8],
            Label::State => seq![115u8, 116u8, 97u8, 116u8, 101u8],
        }
    }

    /// The seed of the label.
    pub fn bytes(&self) -> (seed: Vec<u8>)
        ensures
            seed@ == self.bytes_spec(),
    {
        let seed = match self {
            Label::Vault => vec![118u8, 97u8, 117u8, 108u8, 116u8],
            Label::State => vec![115u8, 116u8, 97u8, 116u8, 101u8],
        };
        assert(seed@ =~= self.bytes_spec());
        seed
    }
}

/// The identity of the controlling program, under which every address is
/// derived.
pub open spec fn program_id_spec() -> Seq<u8> {
    seq![
        55u8, 124u8, 40u8, 231u8, 106u8, 254u8, 94u8, 61u8,
        137u8, 236u8, 219u8, 35u8, 247u8, 102u8, 22u8, 40u8,
        155u8, 8u8, 22u8, 210u8, 142u8, 41u8, 230u8, 45u8,
        210u8, 247u8, 122u8, 252u8, 216u8, 94u8, 232u8, 128u8,
    ]
}

/// The identity of the controlling program.
pub fn program_id() -> (id: Address)
    ensures
        id@ == program_id_spec(),
{
    let id = Address::new(
        [
            55u8, 124u8, 40u8, 231u8, 106u8, 254u8, 94u8, 61u8,
            137u8, 236u8, 219u8, 35u8, 247u8, 102u8, 22u8, 40u8,
            155u8, 8u8, 22u8, 210u8, 142u8, 41u8, 230u8, 45u8,
            210u8, 247u8, 122u8, 252u8, 216u8, 94u8, 232u8, 128u8,
        ],
    );
    assert(id@ =~= program_id_spec());
    id
}

/// The seeds of an owner's account before the bump: the label, then the
/// owner's identity.
pub open spec fn seeds_spec(label: Label, owner: Seq<u8>) -> Seq<Seq<u8>> {
    seq![label.bytes_spec(), owner]
}

/// The address derived from a label, an owner identity and a bump, or `None`
/// where these derive no address.
pub open spec fn derive_spec(label: Label, owner: Seq<u8>, bump: u8) -> Option<Seq<u8>> {
    program_address(with_bump(seeds_spec(label, owner), bump), program_id_spec())
}

/// Whether `bump` is the canonical bump of a label and an owner: the greatest
/// bump from 1 to 255 that derives an address.
pub open spec fn is_canonical(label: Label, owner: Seq<u8>, bump: u8) -> bool {
    &&& bump >= 1
    &&& derive_spec(label, owner, bump) is Some
    &&& forall|higher: u8| bump < higher ==> (#[trigger] derive_spec(label, owner, higher)) is None
}

/// The canonical derivation of a label and an owner: the address and the bump,
/// or `None` where no bump from 1 to 255 derives an address.
pub open spec fn canonical_spec(label: Label, owner: Seq<u8>) -> Option<(Seq<u8>, u8)> {
    if exists|bump: u8| is_canonical(label, owner, bump) {
        let bump = choose|bump: u8| is_canonical(label, owner, bump);
        Some((derive_spec(label, owner, bump)->0, bump))
    } else {
        None
    }
}

/// A label and an owner have at most one canonical bump.
pub proof fn lemma_canonical_unique(label: Label, owner: Seq<u8>, first: u8, second: u8)
    requires
        is_canonical(label, owner, first),
        is_canonical(label, owner, second),
    ensures
        first == second,
{
}

/// The seeds of an owner's account before the bump.
fn seeds(label: Label, owner: &Address) -> (seeds: Vec<Vec<u8>>)
    ensures
        seed_bytes(seeds@) == seeds_spec(label, owner@),
        seeds@.len() == 2,
        forall|i: int| 0 <= i < seeds@.len() ==> (#[trigger] seeds@[i])@.len() <= 32,
{
    let mut seeds: Vec<Vec<u8>> = Vec::new();
    seeds.push(label.bytes());
    seeds.push(owner.to_vec());
    assert(seed_bytes(seeds@) =~= seeds_spec(label, owner@));
    seeds
}

/// The proof of authority over a derived account: the label, the owner
/// identity and the bump that derive its address.  Whoever presents these seeds
/// to the ledger runtime signs for the account they derive.
#[derive(Clone, Copy, Debug, PartialEq, Eq)]
pub struct Capability {
    pub label: Label,
    pub owner: Address,
    pub bump: u8,
}

/// The model of a capability.
pub struct CapabilityView {
    pub label: Label,
    pub owner: Seq<u8>,
    pub bump: u8,
}

impl CapabilityView {
    /// The seeds that the capability presents: the label, the owner identity
    /// and the bump, in this order.
    pub open spec fn seeds(self) -> Seq<Seq<u8>> {
        with_bump(seeds_spec(self.label, self.owner), self.bump)
    }

    /// The address that the capability controls, if it derives one.
    pub open spec fn address(self) -> Option<Seq<u8>> {
        derive_spec(self.label, self.owner, self.bump)
    }
}

impl View for Capability {
    type V = CapabilityView;

    open spec fn view(&self) -> CapabilityView {
        CapabilityView { label: self.label, owner: self.owner@, bump: self.bump }
    }
}

impl Capability {
    /// The capability of a label, an owner identity and a bump.
    pub fn new(label: Label, owner: Address, bump: u8) -> (capability: Capability)
        ensures
            capability@ == (CapabilityView { label, owner: owner@, bump }),
    {
        Capability { label, owner, bump }
    }

    /// The seeds to present to the ledger runtime.
    pub fn seeds(&self) -> (seeds: Vec<Vec<u8>>)
        ensures
            seed_bytes(seeds@) == self@.seeds(),
    {
        let mut seeds = seeds(self.label, &self.owner);
        let ghost before = seed_bytes(seeds@);
        let last: Vec<u8> = vec![self.bump];
        assert(last@ =~= seq![self.bump]);
        seeds.push(last);
        assert(seed_bytes(seeds@) =~= with_bump(before, self.bump));
        seeds
    }

    /// Checks a presented account against the address that the capability
    /// derives: any other address is refused.  An account that passes is not
    /// at the address of a signing key.
    pub fn validate(&self, presented: &Address) -> (checked: Result<(), VaultError>)
        ensures
            checked is Ok <==> self@.address() == Some(presented@),
            checked is Err ==> checked == Err::<(), VaultError>(VaultError::DerivationMismatch),
            checked is Ok ==> !on_curve(presented@),
    {
        match derive(self.label, &self.owner, self.bump) {
            Some(address) => {
                if address.same_as(presented) {
                    Ok(())
                } else {
                    Err(VaultError::DerivationMismatch)
                }
            },
            None => Err(VaultError::DerivationMismatch),
        }
    }
}

/// Whether an address lies on the curve of the signing keys, so that a signing
/// key may exist for it.  For a derived address none does.
pub fn has_signing_key(address: &Address) -> (on: bool)
    ensures
        on == on_curve(address@),
{
    is_on_curve(&address.bytes)
}

/// Derives the address of a label, an owner identity and a bump.  The result
/// is a function of the three: the same inputs always give the same address.
/// No derived address is the address of a signing key.
pub fn derive(label: Label, owner: &Address, bump: u8) -> (derived: Option<Address>)
    ensures
        derive_spec(label, owner@, bump) == match derived {
            Some(address) => Some(address@),
            None => None,
        },
        derived matches Some(address) ==> !on_curve(address@),
{
    let seeds = Capability::new(label, *owner, bump).seeds();
    let id = program_id();
    match create_program_address(&seeds, &id.bytes) {
        Ok(bytes) => Some(Address::new(bytes)),
        Err(_) => None,
    }
}

/// Finds the canonical bump of a label and an owner, searching from 255
/// downward, and the address it derives, which is not the address of a
/// signing key.
pub fn canonical_bump(label: Label, owner: &Address) -> (found: Option<(Address, u8)>)
    ensures
        canonical_spec(label, owner@) == match found {
            Some((address, bump)) => Some((address@, bump)),
            None => None,
        },
        found matches Some((address, _)) ==> !on_curve(address@),
{
    let seeds = seeds(label, owner);
    let id = program_id();
    match try_find_program_address(&seeds, &id.bytes) {
        Some((bytes, bump)) => {
            proof {
                assert(is_canonical(label, owner@, bump));
                let chosen = choose|b: u8| is_canonical(label, owner@, b);
                lemma_canonical_unique(label, owner@, bump, chosen);
            }
            Some((Address::new(bytes), bump))
        },
        None => {
            assert(forall|b: u8| !is_canonical(label, owner@, b));
            None
        },
    }
}

/// Determinism: whatever `derive` may return for a label, an owner identity
/// and a bump, it returns the same for the same three.
pub proof fn lemma_derive_deterministic(
    label: Label,
    owner: Address,
    bump: u8,
    first: Option<Address>,
    second: Option<Address>,
)
    requires
        derive_spec(label, owner@, bump) == match first {
            Some(address) => Some(address@),
            None => None,
        },
        derive_spec(label, owner@, bump) == match second {
            Some(address) => Some(address@),
            None => None,
        },
    ensures
        first == second,
{
    if let Some(address) = first {
        address.lemma_view(second->0);
    }
}

/// The seeds of a capability, one after another, are the bytes of the label,
/// of the owner identity and of the bump.
pub proof fn lemma_seeds_flatten(capability: CapabilityView)
    ensures
        capability.seeds().flatten() == capability.label.bytes_spec() + capability.owner
            + seq![capability.bump],
{
    reveal_with_fuel(Seq::flatten, 4);
    assert(capability.seeds().flatten() =~= capability.label.bytes_spec() + capability.owner
        + seq![capability.bump]);
}

/// A derivation hashes its seeds one after another, so that two lists of
/// seeds with the same bytes in a row derive the same address.  Two
/// capabilities never meet this way: if they differ in the label, the owner
/// identity or the bump, then their seeds differ as one row of bytes.
pub proof fn lemma_seeds_injective(first: CapabilityView, second: CapabilityView)
    requires
        first.owner.len() == 32,
        second.owner.len() == 32,
        first.seeds().flatten() == second.seeds().flatten(),
    ensures
        first == second,
{
    lemma_seeds_flatten(first);
    lemma_seeds_flatten(second);
    let row = first.seeds().flatten();
    let other = second.seeds().flatten();
    assert(first.label.bytes_spec().len() == 5 && second.label.bytes_spec().len() == 5);
    assert(row[0] == first.label.bytes_spec()[0]);
    assert(other[0] == second.label.bytes_spec()[0]);
    assert(row[37] == first.bump);
    assert(other[37] == second.bump);
    assert forall|i: int| 0 <= i < 32 implies first.owner[i] == second.owner[i] by {
        assert(row[5 + i] == first.owner[i]);
        assert(other[5 + i] == second.owner[i]);
    }
    assert(first.owner =~= second.owner);
}

} // verus!
