//! The custody authority: an address derived from a fixed seed and the
//! program's own identity, which anyone can recompute and which holds no key.
use anchor_lang::prelude::Pubkey;
use vstd::prelude::*;

verus! {

/// The seed from which the vault's authority is derived.
pub const SALARY_VAULT_PDA_SEED: [u8; 22] = [
    115, 97, 108, 97, 114, 121, 95, 118, 97, 117, 108, 116, 95, 97, 117, 116, 104, 111, 114, 105, 116, 121,
];

/// The program-derived address and bump for `seed` under `program_id`, where
/// one exists: a function of the bytes alone.
pub uninterp spec fn program_address(seed: Seq<u8>, program_id: Seq<u8>) -> Option<(Seq<u8>, u8)>;

/// The address and bump carried by an optional derivation.
pub open spec fn address_of(r: Option<([u8; 32], u8)>) -> Option<(Seq<u8>, u8)> {
    match r {
        Some((a, b)) => Some((a@, b)),
        None => None,
    }
}

/// Relies on `Pubkey::try_find_program_address` with the single seed `seed`:
/// the derivation depends on the bytes alone, and fails without panicking.
#[verifier::external_body]
fn try_find_program_address(seed: &[u8; 22], program_id: &[u8; 32]) -> (r: Option<([u8; 32], u8)>)
    ensures
        address_of(r) == program_address(seed@, program_id@),
{
    let seeds: [&[u8]; 1] = [seed];
    Pubkey::try_find_program_address(&seeds, &Pubkey::new_from_array(*program_id)).map(|(a, b)| (a.to_bytes(), b))
}

/// The authority that controls the vault of the program `program_id`, with
/// the bump that signs for it.
pub fn derive_authority(program_id: &[u8; 32]) -> (r: Option<([u8; 32], u8)>)
    ensures
        address_of(r) == program_address(SALARY_VAULT_PDA_SEED@, program_id@),
{
    let seed = SALARY_VAULT_PDA_SEED;
    try_find_program_address(&seed, program_id)
}

} // verus!
