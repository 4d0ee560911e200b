//! `VerifyCreator` / `UnverifyCreator`: a listed creator signs to set or clear its own
//! `verified` flag.
use vstd::prelude::*;

use crate::account::{AccountState, AccountView};
use crate::address::Address;
use crate::checks::{assert_mutable, assert_signer};
use crate::error::{custom_error, ProgramError, TokenMetadataError};
use crate::processor::{outcome_holds, with_data};
use crate::state::metadata::{
    load_error, metadata_bytes, parse_metadata, CreatorEntryView, MetadataView,
};
use crate::state::{TokenMetadata, MAX_CREATORS};

verus! {

/// The first position at or after `from` among the creators whose address is `address`.
pub open spec fn creator_index(creators: Seq<CreatorEntryView>, address: Seq<u8>, from: int) -> Option<
    int,
>
    decreases creators.len() - from,
{
    if from < 0 || from >= creators.len() {
        None
    } else if creators[from].address == address {
        Some(from)
    } else {
        creator_index(creators, address, from + 1)
    }
}

/// The inputs on which the handler would index past the creator capacity: a signed request
/// against mutable metadata whose stored creator count exceeds the capacity. Records written
/// by this program never have such a count.
pub open spec fn creator_count_out_of_range(program_id: Seq<u8>, accounts: Seq<AccountState>) -> bool {
    &&& accounts.len() == 2
    &&& accounts[1].is_signer
    &&& load_error(accounts[0], program_id) is None
    &&& parse_metadata(accounts[0].data).mutable()
    &&& parse_metadata(accounts[0].data).creator_count > MAX_CREATORS
}

/// The record with the `verified` flag of creator `k` set to `verified`.
pub open spec fn with_verified(m: MetadataView, k: int, verified: bool) -> MetadataView {
    MetadataView {
        creators: m.creators.update(
            k,
            CreatorEntryView {
                verified: if verified {
                    1u8
                } else {
                    0u8
                },
                ..m.creators[k]
            },
        ),
        ..m
    }
}

/// What `VerifyCreator` (`verified` true) or `UnverifyCreator` (`verified` false) does to the
/// accounts `[metadata, creator]`.
pub open spec fn set_creator_verified_spec(
    program_id: Seq<u8>,
    accounts: Seq<AccountState>,
    verified: bool,
) -> Result<Seq<AccountState>, ProgramError> {
    if accounts.len() != 2 {
        Err(ProgramError::NotEnoughAccountKeys)
    } else if !accounts[1].is_signer {
        Err(custom_error(TokenMetadataError::MissingRequiredSignature))
    } else {
        match load_error(accounts[0], program_id) {
            Some(e) => Err(e),
            None => {
                let m = parse_metadata(accounts[0].data);
                if !m.mutable() {
                    Err(custom_error(TokenMetadataError::DataIsImmutable))
                } else {
                    match creator_index(m.creator_list(), accounts[1].address, 0) {
                        None => Err(custom_error(TokenMetadataError::SignerNotACreator)),
                        Some(k) => Ok(
                            accounts.update(
                                0,
                                with_data(accounts[0], metadata_bytes(with_verified(m, k, verified))),
                            ),
                        ),
                    }
                }
            },
        }
    }
}

/// Sets the signing creator's own `verified` flag to `verified`. No other authority, the
/// update authority included, can set it on a creator's behalf; the change is refused once the
/// metadata is immutable.
#[verifier::loop_isolation(false)]
pub fn set_creator_verified(program_id: &Address, accounts: &mut Vec<AccountView>, verified: bool) -> (r:
    Result<(), ProgramError>)
    requires
        !creator_count_out_of_range(program_id@, old(accounts).deep_view()),
    ensures
        outcome_holds(
            set_creator_verified_spec(program_id@, old(accounts).deep_view(), verified),
            r,
            old(accounts).deep_view(),
            final(accounts).deep_view(),
        ),
{
    if accounts.len() != 2 {
        return Err(ProgramError::NotEnoughAccountKeys);
    }
    if let Err(e) = assert_signer(&accounts[1]) {
        return Err(e);
    }
    let mut metadata = match TokenMetadata::from_account_view_mut(&accounts[0], program_id) {
        Ok(m) => m,
        Err(e) => {
            return Err(e);
        },
    };
    if let Err(e) = assert_mutable(&metadata) {
        return Err(e);
    }
    let ghost m = metadata@;
    let creator_key = *accounts[1].address();
    let count = metadata.creator_count as usize;
    let mut i: usize = 0;
    while i < count
        invariant
            count == m.creator_count,
            count <= MAX_CREATORS,
            i <= count,
            metadata@ == m,
            m.wf(),
            accounts@.len() == 2,
            accounts.deep_view() == old(accounts).deep_view(),
            creator_index(m.creator_list(), creator_key@, 0) == creator_index(
                m.creator_list(),
                creator_key@,
                i as int,
            ),
        decreases count - i,
    {
        let ghost list = m.creator_list();
        assert(list[i as int] == m.creators[i as int]);
        if metadata.creators[i].address == creator_key {
            assert(creator_index(list, creator_key@, i as int) == Some(i as int));
            let mut entry = metadata.creators[i];
            entry.verified = if verified {
                1
            } else {
                0
            };
            metadata.creators[i] = entry;
            assert(metadata@.creators =~= with_verified(m, i as int, verified).creators);
            assert(metadata@ =~= with_verified(m, i as int, verified));
            let ghost before = accounts.deep_view();
            metadata.store(&mut accounts[0]);
            assert(accounts.deep_view() =~= before.update(
                0,
                with_data(before[0], metadata_bytes(metadata@)),
            ));
            return Ok(());
        }
        assert(creator_index(list, creator_key@, i as int) == creator_index(
            list,
            creator_key@,
            i + 1,
        ));
        i = i + 1;
    }
    assert(creator_index(m.creator_list(), creator_key@, count as int) is None);
    Err(ProgramError::from(TokenMetadataError::SignerNotACreator))
}

/// A listed creator signs to set its own `verified` flag to true.
pub fn process_verify_creator(program_id: &Address, accounts: &mut Vec<AccountView>) -> (r: Result<
    (),
    ProgramError,
>)
    requires
        !creator_count_out_of_range(program_id@, old(accounts).deep_view()),
    ensures
        outcome_holds(
            set_creator_verified_spec(program_id@, old(accounts).deep_view(), true),
            r,
            old(accounts).deep_view(),
            final(accounts).deep_view(),
        ),
{
    set_creator_verified(program_id, accounts, true)
}

} // verus!
