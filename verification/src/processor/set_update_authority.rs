//! `SetUpdateAuthority`: transfer or renounce the update authority.
use vstd::prelude::*;

use crate::account::{AccountState, AccountView};
use crate::address::{zeros, Address};
use crate::checks::{assert_mutable, assert_update_authority_is_correct, update_authority_error};
use crate::error::{custom_error, ProgramError, TokenMetadataError};
use crate::instruction::{parse_set_authority_args, set_authority_args_len, SetUpdateAuthorityArgs};
use crate::processor::{outcome_holds, with_data};
use crate::state::metadata::{load_error, metadata_bytes, parse_metadata, MetadataView};
use crate::state::TokenMetadata;

verus! {

/// What `SetUpdateAuthority` does to the accounts `[metadata, current update authority]`
/// given its payload `data`.
pub open spec fn set_update_authority_spec(
    program_id: Seq<u8>,
    accounts: Seq<AccountState>,
    data: Seq<u8>,
) -> Result<Seq<AccountState>, ProgramError> {
    if accounts.len() != 2 {
        Err(ProgramError::NotEnoughAccountKeys)
    } else if data.len() != set_authority_args_len() {
        Err(custom_error(TokenMetadataError::InvalidInstructionData))
    } else {
        let args = parse_set_authority_args(data);
        match load_error(accounts[0], program_id) {
            Some(e) => Err(e),
            None => {
                let m = parse_metadata(accounts[0].data);
                match update_authority_error(m, accounts[1]) {
                    Some(e) => Err(e),
                    None => if !m.mutable() {
                        Err(custom_error(TokenMetadataError::DataIsImmutable))
                    } else if args.renounce == 0 && args.new_update_authority == zeros(32) {
                        Err(custom_error(TokenMetadataError::InvalidNewUpdateAuthority))
                    } else {
                        let new_authority = if args.renounce != 0 {
                            zeros(32)
                        } else {
                            args.new_update_authority
                        };
                        Ok(
                            accounts.update(
                                0,
                                with_data(
                                    accounts[0],
                                    metadata_bytes(
                                        MetadataView { update_authority: new_authority, ..m },
                                    ),
                                ),
                            ),
                        )
                    },
                }
            },
        }
    }
}

/// Transfers the update authority to a new, nonzero address, or renounces it (sets it to the
/// all-zero address) when the renounce flag is set. Only the current update authority may do
/// so, and only while the metadata is mutable.
pub fn process_set_update_authority(
    program_id: &Address,
    accounts: &mut Vec<AccountView>,
    data: &[u8],
) -> (r: Result<(), ProgramError>)
    ensures
        outcome_holds(
            set_update_authority_spec(program_id@, old(accounts).deep_view(), data@),
            r,
            old(accounts).deep_view(),
            final(accounts).deep_view(),
        ),
{
    if accounts.len() != 2 {
        return Err(ProgramError::NotEnoughAccountKeys);
    }
    let args = match SetUpdateAuthorityArgs::from_bytes(data) {
        Ok(a) => a,
        Err(e) => {
            return Err(e);
        },
    };
    let mut metadata = match TokenMetadata::from_account_view_mut(&accounts[0], program_id) {
        Ok(m) => m,
        Err(e) => {
            return Err(e);
        },
    };
    if let Err(e) = assert_update_authority_is_correct(&metadata, &accounts[1]) {
        return Err(e);
    }
    if let Err(e) = assert_mutable(&metadata) {
        return Err(e);
    }
    let new_authority = if args.renounce != 0 {
        Address::default()
    } else {
        if args.new_update_authority.is_default() {
            return Err(ProgramError::from(TokenMetadataError::InvalidNewUpdateAuthority));
        }
        args.new_update_authority
    };
    metadata.update_authority = new_authority;
    let ghost before = accounts.deep_view();
    metadata.store(&mut accounts[0]);
    assert(accounts.deep_view() =~= before.update(0, with_data(before[0], metadata_bytes(metadata@))));
    Ok(())
}

} // verus!
