//! The address functions of the ledger's own library, as this crate calls
//! them.  Nothing here is proved: each contract says what the crate takes the
//! function to do.

use vstd::prelude::*;
use anchor_lang::prelude::Pubkey;
use anchor_lang::solana_program::pubkey::PubkeyError;

verus! {

/// The error type of `Pubkey::create_program_address`.
#[verifier::external_type_specification]
#[verifier::external_body]
pub struct ExPubkeyError(anchor_lang::solana_program::pubkey::PubkeyError);

/// What `Pubkey::create_program_address` returns for a list of seeds and a
/// program identity: the derived address, or `None` where it returns an error.
pub uninterp spec fn program_address(seeds: Seq<Seq<u8>>, program_id: Seq<u8>) -> Option<Seq<u8>>;

/// What `Pubkey::is_on_curve` returns for an address: whether its bytes are a
/// point of the curve that signing keys lie on.
pub uninterp spec fn on_curve(address: Seq<u8>) -> bool;

/// The bytes of each seed of a list.
pub open spec fn seed_bytes(seeds: Seq<Vec<u8>>) -> Seq<Seq<u8>> {
    Seq::new(seeds.len(), |i: int| seeds[i]@)
}

/// A list of seeds with the bump as one more seed of a single byte.
pub open spec fn with_bump(seeds: Seq<Seq<u8>>, bump: u8) -> Seq<Seq<u8>> {
    seeds.push(seq![bump])
}

/// Calls `Pubkey::is_on_curve`.  The contract gives the call's result a name,
/// `on_curve`: the result depends on the bytes alone.  The function is there
/// for programs off the ledger; built for the ledger's own machine it is not
/// implemented.
#[verifier::external_body]
pub(crate) fn is_on_curve(bytes: &[u8; 32]) -> (on: bool)
    ensures
        on == on_curve(bytes@),
{
    Pubkey::new_from_array(*bytes).is_on_curve()
}

/// Calls `Pubkey::create_program_address`.  The contract gives the call's
/// result a name, `program_address`: the result depends on the seeds and the
/// program identity alone.  It claims one thing more of an address that comes
/// back: the function returns an error for a hash that is a point of the
/// curve, so the address is none.
#[verifier::external_body]
pub(crate) fn create_program_address(seeds: &Vec<Vec<u8>>, program_id: &[u8; 32]) -> (derived: Result<
    [u8; 32],
    PubkeyError,
>)
    ensures
        program_address(seed_bytes(seeds@), program_id@) == match derived {
            Ok(bytes) => Some(bytes@),
            Err(_) => None,
        },
        derived matches Ok(bytes) ==> !on_curve(bytes@),
{
    let parts: Vec<&[u8]> = seeds.iter().map(|seed| seed.as_slice()).collect();
    Pubkey::create_program_address(&parts, &Pubkey::new_from_array(*program_id)).map(
        |key| key.to_bytes(),
    )
}

/// Calls `Pubkey::try_find_program_address`, which tries the bumps from 255
/// down to 1 as a last seed and stops at the first one for which
/// `Pubkey::create_program_address` succeeds.  The contract claims that the
/// result is that bump with its address, which is no point of the curve, and
/// `None` when all 255 bumps fail.  The seeds are kept within the limits of
/// `create_program_address`, so that the search never ends early.
#[verifier::external_body]
pub(crate) fn try_find_program_address(seeds: &Vec<Vec<u8>>, program_id: &[u8; 32]) -> (found: Option<
    ([u8; 32], u8),
>)
    requires
        seeds@.len() < 16,
        forall|i: int| 0 <= i < seeds@.len() ==> (#[trigger] seeds@[i])@.len() <= 32,
    ensures
        match found {
            Some((bytes, bump)) => {
                &&& bump >= 1
                &&& program_address(with_bump(seed_bytes(seeds@), bump), program_id@) == Some(
                    bytes@,
                )
                &&& !on_curve(bytes@)
                &&& forall|higher: u8|
                    bump < higher ==> (#[trigger] program_address(
                        with_bump(seed_bytes(seeds@), higher),
                        program_id@,
                    )) is None
            },
            None => forall|bump: u8|
                bump >= 1 ==> (#[trigger] program_address(
                    with_bump(seed_bytes(seeds@), bump),
                    program_id@,
                )) is None,
        },
{
    let parts: Vec<&[u8]> = seeds.iter().map(|seed| seed.as_slice()).collect();
    Pubkey::try_find_program_address(&parts, &Pubkey::new_from_array(*program_id)).map(
        |(key, bump)| (key.to_bytes(), bump),
    )
}

} // verus!
