//! `UpdateMetadata`: replace the content of existing, mutable metadata.
use vstd::prelude::*;

use crate::account::{AccountState, AccountView};
use crate::address::Address;
use crate::checks::{
    assert_mutable, assert_update_authority_is_correct, content_error, entry_views,
    update_authority_error, validate_metadata_content,
};
use crate::error::{custom_error, ProgramError, TokenMetadataError};
use crate::instruction::{content_len, parse_content, UpdateMetadataArgs};
use crate::processor::{
    creator_entries, creator_slots, outcome_holds, unverified_entries, with_content, with_data,
};
use crate::state::metadata::{load_error, metadata_bytes, parse_metadata};
use crate::state::{TokenMetadata, MAX_CREATORS};

verus! {

/// What `UpdateMetadata` does to the accounts `[metadata, mint, update authority]` given its
/// payload `data`.
pub open spec fn update_spec(program_id: Seq<u8>, accounts: Seq<AccountState>, data: Seq<u8>) -> Result<
    Seq<AccountState>,
    ProgramError,
> {
    if accounts.len() != 3 {
        Err(ProgramError::NotEnoughAccountKeys)
    } else if data.len() != content_len() {
        Err(custom_error(TokenMetadataError::InvalidInstructionData))
    } else {
        let a = parse_content(data);
        match a.length_error() {
            Some(e) => Err(custom_error(e)),
            None => match load_error(accounts[0], program_id) {
                Some(e) => Err(e),
                None => {
                    let m = parse_metadata(accounts[0].data);
                    match update_authority_error(m, accounts[2]) {
                        Some(e) => Err(e),
                        None => if !m.mutable() {
                            Err(custom_error(TokenMetadataError::DataIsImmutable))
                        } else if m.mint != accounts[1].address {
                            Err(custom_error(TokenMetadataError::MintMismatch))
                        } else if a.creator_count > MAX_CREATORS {
                            Err(custom_error(TokenMetadataError::TooManyCreators))
                        } else {
                            match content_error(
                                a.name_bytes(),
                                a.symbol_bytes(),
                                a.uri_bytes(),
                                a.royalty(),
                                unverified_entries(a.creator_list()),
                            ) {
                                Some(e) => Err(custom_error(e)),
                                None => Ok(
                                    accounts.update(
                                        0,
                                        with_data(accounts[0], metadata_bytes(with_content(m, a))),
                                    ),
                                ),
                            }
                        },
                    }
                },
            },
        }
    }
}

/// Replaces name/symbol/uri/royalty/creators on existing, mutable metadata; only its update
/// authority may do so. Creators are always written unverified.
pub fn process_update(program_id: &Address, accounts: &mut Vec<AccountView>, data: &[u8]) -> (r: Result<
    (),
    ProgramError,
>)
    ensures
        outcome_holds(
            update_spec(program_id@, old(accounts).deep_view(), data@),
            r,
            old(accounts).deep_view(),
            final(accounts).deep_view(),
        ),
{
    if accounts.len() != 3 {
        return Err(ProgramError::NotEnoughAccountKeys);
    }
    let args = match UpdateMetadataArgs::from_bytes(data) {
        Ok(a) => a,
        Err(e) => {
            return Err(e);
        },
    };
    if let Err(e) = args.validate_lengths() {
        return Err(e);
    }
    let mut metadata = match TokenMetadata::from_account_view_mut(&accounts[0], program_id) {
        Ok(m) => m,
        Err(e) => {
            return Err(e);
        },
    };
    if let Err(e) = assert_update_authority_is_correct(&metadata, &accounts[2]) {
        return Err(e);
    }
    if let Err(e) = assert_mutable(&metadata) {
        return Err(e);
    }
    if metadata.mint != *accounts[1].address() {
        return Err(ProgramError::from(TokenMetadataError::MintMismatch));
    }
    let creator_inputs = match args.creators() {
        Ok(c) => c,
        Err(e) => {
            return Err(e);
        },
    };
    let entries = creator_entries(creator_inputs);
    let creator_list = &entries[0..creator_inputs.len()];
    assert(entry_views(creator_list@) =~= unverified_entries(args@.creator_list()));
    if let Err(e) = validate_metadata_content(
        args.name(),
        args.symbol(),
        args.uri(),
        args.royalty_bps(),
        creator_list,
    ) {
        return Err(e);
    }
    let ghost m = metadata@;
    metadata.set_royalty_bps(args.royalty_bps());
    metadata.set_content(args.name(), args.symbol(), args.uri());
    metadata.set_creators(creator_list);
    assert(metadata@.creators =~= creator_slots(unverified_entries(args@.creator_list())));
    assert(metadata@ =~= with_content(m, args@));
    let ghost before = accounts.deep_view();
    metadata.store(&mut accounts[0]);
    assert(accounts.deep_view() =~= before.update(0, with_data(before[0], metadata_bytes(metadata@))));
    Ok(())
}

} // verus!
