//! `CloseMetadata`: close the metadata account and reclaim its rent, only while mutable.
use vstd::prelude::*;

use crate::account::{closed_state, AccountState, AccountView};
use crate::address::Address;
use crate::checks::{
    assert_mutable, assert_update_authority_is_correct, assert_writable, update_authority_error,
};
use crate::error::{custom_error, ProgramError, TokenMetadataError};
use crate::processor::outcome_holds;
use crate::state::metadata::{load_error, parse_metadata};
use crate::state::TokenMetadata;

verus! {

/// What `CloseMetadata` does to the accounts `[metadata, mint, update authority,
/// destination]`: the destination receives the metadata account's lamports and the metadata
/// account is closed.
pub open spec fn close_spec(program_id: Seq<u8>, accounts: Seq<AccountState>) -> Result<
    Seq<AccountState>,
    ProgramError,
> {
    if accounts.len() != 4 {
        Err(ProgramError::NotEnoughAccountKeys)
    } else if !accounts[0].is_writable || !accounts[3].is_writable {
        Err(ProgramError::InvalidAccountData)
    } else {
        match load_error(accounts[0], program_id) {
            Some(e) => Err(e),
            None => {
                let m = parse_metadata(accounts[0].data);
                match update_authority_error(m, accounts[2]) {
                    Some(e) => Err(e),
                    None => if !m.mutable() {
                        Err(custom_error(TokenMetadataError::DataIsImmutable))
                    } else if m.mint != accounts[1].address {
                        Err(custom_error(TokenMetadataError::MintMismatch))
                    } else if accounts[3].lamports + accounts[0].lamports > u64::MAX {
                        Err(custom_error(TokenMetadataError::NumericalOverflow))
                    } else {
                        Ok(
                            accounts.update(
                                3,
                                AccountState {
                                    lamports: (accounts[3].lamports + accounts[0].lamports) as u64,
                                    ..accounts[3]
                                },
                            ).update(0, closed_state(accounts[0])),
                        )
                    },
                }
            },
        }
    }
}

/// Closes the metadata account, moving its lamports to the destination. Only the update
/// authority may close, and only while the metadata is mutable: once immutable, the metadata
/// is guaranteed to holders to neither change nor disappear.
pub fn process_close(program_id: &Address, accounts: &mut Vec<AccountView>) -> (r: Result<
    (),
    ProgramError,
>)
    ensures
        outcome_holds(
            close_spec(program_id@, old(accounts).deep_view()),
            r,
            old(accounts).deep_view(),
            final(accounts).deep_view(),
        ),
{
    if accounts.len() != 4 {
        return Err(ProgramError::NotEnoughAccountKeys);
    }
    if let Err(e) = assert_writable(&accounts[0]) {
        return Err(e);
    }
    if let Err(e) = assert_writable(&accounts[3]) {
        return Err(e);
    }
    let metadata = match TokenMetadata::from_account_view_mut(&accounts[0], program_id) {
        Ok(m) => m,
        Err(e) => {
            return Err(e);
        },
    };
    if let Err(e) = assert_update_authority_is_correct(&metadata, &accounts[2]) {
        return Err(e);
    }
    if let Err(e) = assert_mutable(&metadata) {
        return Err(e);
    }
    if metadata.mint != *accounts[1].address() {
        return Err(ProgramError::from(TokenMetadataError::MintMismatch));
    }
    let reclaimed = accounts[0].lamports();
    let destination_balance = accounts[3].lamports();
    let new_balance = match destination_balance.checked_add(reclaimed) {
        Some(v) => v,
        None => {
            return Err(ProgramError::from(TokenMetadataError::NumericalOverflow));
        },
    };
    let ghost before = accounts.deep_view();
    accounts[3].set_lamports(new_balance);
    accounts[0].set_lamports(0);
    accounts[0].close();
    assert(accounts.deep_view() =~= before.update(
        3,
        AccountState { lamports: new_balance, ..before[3] },
    ).update(0, closed_state(before[0])));
    Ok(())
}

} // verus!
