//! The address of a mint's metadata account: `["metadata", mint, bump]` under this program.
use vstd::prelude::*;

use crate::address::{lemma_address_len, Address};
use crate::error::{custom_error, ProgramError, TokenMetadataError};

verus! {

broadcast use lemma_address_len;

/// Seed prefix of the `["metadata", mint, bump]` address: the bytes of `"metadata"`.
pub const METADATA_SEED: [u8; 8] = [0x6d, 0x65, 0x74, 0x61, 0x64, 0x61, 0x74, 0x61];

/// The address `solana_address::Address::derive_address` computes for `seeds`, `bump` and
/// `program_id`: `sha256(seeds || bump || program_id || "ProgramDerivedAddress")`, without
/// the on-curve exclusion check.
pub uninterp spec fn derived_address(seeds: Seq<Seq<u8>>, bump: u8, program_id: Seq<u8>) -> Seq<u8>;

/// `solana_address::Address::derive_address(&[seed0, seed1], Some(bump), program_id)`.
///
/// The contract names the result and claims that it depends on the seeds, bump and program
/// id alone; the hash itself is not stated. `derive_address` panics on a seed longer than
/// 32 bytes, which the precondition excludes.
#[verifier::external_body]
fn derive_address(seed0: &[u8], seed1: &[u8], bump: u8, program_id: &[u8; 32]) -> (r: [u8; 32])
    requires
        seed0@.len() <= 32,
        seed1@.len() <= 32,
    ensures
        r@ == derived_address(seq![seed0@, seed1@], bump, program_id@),
{
    let program_id = solana_address::Address::new_from_array(*program_id);
    solana_address::Address::derive_address(&[seed0, seed1], Some(bump), &program_id).to_bytes()
}

/// The metadata address of `mint` under `program_id` with `bump`.
pub open spec fn metadata_address(mint: Seq<u8>, bump: u8, program_id: Seq<u8>) -> Seq<u8> {
    derived_address(seq![METADATA_SEED@, mint], bump, program_id)
}

/// Derives the metadata address for `mint` using `bump`, without the on-curve exclusion check
/// that `create_program_address` performs: the result is only ever compared against an
/// account address supplied by the caller, never used to sign.
pub fn derive_metadata_address(mint: &Address, bump: u8, program_id: &Address) -> (r: Address)
    ensures
        r@ == metadata_address(mint@, bump, program_id@),
{
    let seed = METADATA_SEED;
    let mint_bytes = mint.as_array();
    let program_bytes = program_id.as_array();
    Address::new_from_array(derive_address(&seed, mint_bytes, bump, program_bytes))
}

/// Verifies that `candidate` is the metadata address for `mint` derived with `bump`.
pub fn verify_metadata_address(mint: &Address, bump: u8, program_id: &Address, candidate: &Address) -> (r:
    Result<(), ProgramError>)
    ensures
        r == if metadata_address(mint@, bump, program_id@) == candidate@ {
            Ok::<(), ProgramError>(())
        } else {
            Err(custom_error(TokenMetadataError::InvalidMetadataAddress))
        },
{
    if derive_metadata_address(mint, bump, program_id) != *candidate {
        return Err(ProgramError::from(TokenMetadataError::InvalidMetadataAddress));
    }
    Ok(())
}

} // verus!
