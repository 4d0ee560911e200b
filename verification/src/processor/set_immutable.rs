//! `SetImmutable`: a one-way flip of `is_mutable` from true to false.
use vstd::prelude::*;

use crate::account::{AccountState, AccountView};
use crate::address::Address;
use crate::checks::{assert_update_authority_is_correct, update_authority_error};
use crate::error::{custom_error, ProgramError, TokenMetadataError};
use crate::processor::{outcome_holds, with_data};
use crate::state::metadata::{load_error, metadata_bytes, parse_metadata, MetadataView};
use crate::state::TokenMetadata;

verus! {

/// What `SetImmutable` does to the accounts `[metadata, update authority]`.
pub open spec fn set_immutable_spec(program_id: Seq<u8>, accounts: Seq<AccountState>) -> Result<
    Seq<AccountState>,
    ProgramError,
> {
    if accounts.len() != 2 {
        Err(ProgramError::NotEnoughAccountKeys)
    } else {
        match load_error(accounts[0], program_id) {
            Some(e) => Err(e),
            None => {
                let m = parse_metadata(accounts[0].data);
                match update_authority_error(m, accounts[1]) {
                    Some(e) => Err(e),
                    None => if !m.mutable() {
                        Err(custom_error(TokenMetadataError::AlreadyImmutable))
                    } else {
                        Ok(
                            accounts.update(
                                0,
                                with_data(
                                    accounts[0],
                                    metadata_bytes(MetadataView { is_mutable: 0, ..m }),
                                ),
                            ),
                        )
                    },
                }
            },
        }
    }
}

/// Permanently marks the metadata immutable; only its update authority may do so, and only
/// once.
pub fn process_set_immutable(program_id: &Address, accounts: &mut Vec<AccountView>) -> (r: Result<
    (),
    ProgramError,
>)
    ensures
        outcome_holds(
            set_immutable_spec(program_id@, old(accounts).deep_view()),
            r,
            old(accounts).deep_view(),
            final(accounts).deep_view(),
        ),
{
    if accounts.len() != 2 {
        return Err(ProgramError::NotEnoughAccountKeys);
    }
    let mut metadata = match TokenMetadata::from_account_view_mut(&accounts[0], program_id) {
        Ok(m) => m,
        Err(e) => {
            return Err(e);
        },
    };
    if let Err(e) = assert_update_authority_is_correct(&metadata, &accounts[1]) {
        return Err(e);
    }
    if !metadata.is_mutable() {
        return Err(ProgramError::from(TokenMetadataError::AlreadyImmutable));
    }
    metadata.set_mutable(false);
    let ghost before = accounts.deep_view();
    metadata.store(&mut accounts[0]);
    assert(accounts.deep_view() =~= before.update(0, with_data(before[0], metadata_bytes(metadata@))));
    Ok(())
}

} // verus!
