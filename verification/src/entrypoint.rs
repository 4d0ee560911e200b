//! Instruction dispatch.
use vstd::prelude::*;

use crate::account::{AccountState, AccountView};
use crate::address::Address;
use crate::checks::MintReadings;
use crate::error::ProgramError;
use crate::instruction::{split_discriminator, split_spec, TokenMetadataInstruction};
use crate::processor::close::close_spec;
use crate::processor::create::create_spec;
use crate::processor::set_immutable::set_immutable_spec;
use crate::processor::set_update_authority::set_update_authority_spec;
use crate::processor::update::update_spec;
use crate::processor::verify_creator::{creator_count_out_of_range, set_creator_verified_spec};
use crate::processor::{
    outcome_holds, process_close, process_create, process_set_immutable,
    process_set_update_authority, process_unverify_creator, process_update, process_verify_creator,
    CreatePlan,
};

verus! {

/// What the instruction `ix` with payload `payload` does to the accounts. `CreateMetadata`
/// changes no account by itself: on success it leaves a [`CreatePlan`] for the caller.
pub open spec fn instruction_spec(
    program_id: Seq<u8>,
    accounts: Seq<AccountState>,
    ix: TokenMetadataInstruction,
    payload: Seq<u8>,
    readings: MintReadings,
) -> Result<Seq<AccountState>, ProgramError> {
    match ix {
        TokenMetadataInstruction::CreateMetadata => match create_spec(
            program_id,
            accounts,
            payload,
            readings,
        ) {
            Ok(_) => Ok(accounts),
            Err(e) => Err(e),
        },
        TokenMetadataInstruction::UpdateMetadata => update_spec(program_id, accounts, payload),
        TokenMetadataInstruction::SetUpdateAuthority => set_update_authority_spec(
            program_id,
            accounts,
            payload,
        ),
        TokenMetadataInstruction::SetImmutable => set_immutable_spec(program_id, accounts),
        TokenMetadataInstruction::VerifyCreator => set_creator_verified_spec(
            program_id,
            accounts,
            true,
        ),
        TokenMetadataInstruction::UnverifyCreator => set_creator_verified_spec(
            program_id,
            accounts,
            false,
        ),
        TokenMetadataInstruction::CloseMetadata => close_spec(program_id, accounts),
    }
}

/// What the raw instruction `data` does to the accounts.
pub open spec fn process_instruction_spec(
    program_id: Seq<u8>,
    accounts: Seq<AccountState>,
    data: Seq<u8>,
    readings: MintReadings,
) -> Result<Seq<AccountState>, ProgramError> {
    match split_spec(data) {
        Err(e) => Err(e),
        Ok((ix, payload)) => instruction_spec(program_id, accounts, ix, payload, readings),
    }
}

/// The inputs on which dispatch would index past a stored creator list's capacity (see
/// `creator_count_out_of_range`).
pub open spec fn dispatch_out_of_range(
    program_id: Seq<u8>,
    accounts: Seq<AccountState>,
    data: Seq<u8>,
) -> bool {
    match split_spec(data) {
        Ok((TokenMetadataInstruction::VerifyCreator, _)) => creator_count_out_of_range(
            program_id,
            accounts,
        ),
        Ok((TokenMetadataInstruction::UnverifyCreator, _)) => creator_count_out_of_range(
            program_id,
            accounts,
        ),
        _ => false,
    }
}

/// The unit result of a dispatch result.
pub open spec fn unit_result(r: Result<Option<CreatePlan>, ProgramError>) -> Result<(), ProgramError> {
    match r {
        Ok(_) => Ok(()),
        Err(e) => Err(e),
    }
}

/// Decodes the instruction and runs its handler. For `CreateMetadata` the result carries the
/// plan of the account to create (see [`crate::processor::create`]).
pub fn process_instruction(
    program_id: &Address,
    accounts: &mut Vec<AccountView>,
    instruction_data: &[u8],
    mint_readings: &MintReadings,
) -> (r: Result<Option<CreatePlan>, ProgramError>)
    requires
        !dispatch_out_of_range(program_id@, old(accounts).deep_view(), instruction_data@),
    ensures
        outcome_holds(
            process_instruction_spec(
                program_id@,
                old(accounts).deep_view(),
                instruction_data@,
                *mint_readings,
            ),
            unit_result(r),
            old(accounts).deep_view(),
            final(accounts).deep_view(),
        ),
        r.is_ok() ==> match split_spec(instruction_data@) {
            Ok((TokenMetadataInstruction::CreateMetadata, payload)) => r.unwrap().is_some()
                && create_spec(program_id@, old(accounts).deep_view(), payload, *mint_readings)
                == Ok::<_, ProgramError>(r.unwrap().unwrap().record@),
            _ => r.unwrap().is_none(),
        },
{
    let (instruction, data) = match split_discriminator(instruction_data) {
        Ok(v) => v,
        Err(e) => {
            return Err(e);
        },
    };
    match instruction {
        TokenMetadataInstruction::CreateMetadata => match process_create(
            program_id,
            accounts,
            data,
            mint_readings,
        ) {
            Ok(plan) => Ok(Some(plan)),
            Err(e) => Err(e),
        },
        TokenMetadataInstruction::UpdateMetadata => match process_update(program_id, accounts, data) {
            Ok(()) => Ok(None),
            Err(e) => Err(e),
        },
        TokenMetadataInstruction::SetUpdateAuthority => match process_set_update_authority(
            program_id,
            accounts,
            data,
        ) {
            Ok(()) => Ok(None),
            Err(e) => Err(e),
        },
        TokenMetadataInstruction::SetImmutable => match process_set_immutable(program_id, accounts) {
            Ok(()) => Ok(None),
            Err(e) => Err(e),
        },
        TokenMetadataInstruction::VerifyCreator => match process_verify_creator(program_id, accounts) {
            Ok(()) => Ok(None),
            Err(e) => Err(e),
        },
        TokenMetadataInstruction::UnverifyCreator => match process_unverify_creator(
            program_id,
            accounts,
        ) {
            Ok(()) => Ok(None),
            Err(e) => Err(e),
        },
        TokenMetadataInstruction::CloseMetadata => match process_close(program_id, accounts) {
            Ok(()) => Ok(None),
            Err(e) => Err(e),
        },
    }
}

} // verus!
