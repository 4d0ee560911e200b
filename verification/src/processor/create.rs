//! `CreateMetadata`: attach metadata to an existing, initialized mint.
//!
//! Creation happens in two steps around the system program's `CreateAccount`, which the
//! caller performs: [`process_create`] checks everything and returns a [`CreatePlan`]; once the
//! account exists, [`finish_create`] writes the planned record into it.
use vstd::prelude::*;

use crate::account::{AccountState, AccountView};
use crate::address::{zeros, Address};
use crate::checks::{
    assert_address, assert_mint_authority_matches, assert_signer, assert_writable, content_error,
    entry_views, mint_authority_error, read_mint, read_mint_spec, validate_metadata_content,
    MintReadings, TokenProgramKind,
};
use crate::error::{custom_error, ProgramError, TokenMetadataError};
use crate::instruction::{create_args_len, parse_create_args, CreateArgsView, CreateMetadataArgs};
use crate::pda::{metadata_address, verify_metadata_address};
use crate::processor::{
    creator_entries, creator_slots, outcome_holds, unverified_entries, with_content, with_data,
};
use crate::programs::{system_program_id, system_program_id_bytes};
use crate::state::metadata::{load_uninitialized_error, metadata_bytes, MetadataView};
use crate::state::mint_extensions::metadata_pointer_spec;
use crate::state::{
    read_metadata_pointer, CreatorEntry, TokenKind, TokenMetadata, DISCRIMINATOR_TOKEN_METADATA_V1,
    MAX_CREATORS, MAX_NAME_LEN, MAX_SYMBOL_LEN, MAX_URI_LEN,
};

verus! {

/// The record a successful creation writes: the V1 discriminator, the bump, mutable, the
/// token kind inferred from the mint's decimals, the initial update authority, the mint, and
/// the payload's content with its creators unverified.
pub open spec fn created_record(args: CreateArgsView, decimals: u8, mint: Seq<u8>) -> MetadataView {
    with_content(
        MetadataView {
            discriminator: DISCRIMINATOR_TOKEN_METADATA_V1@,
            bump: args.bump,
            is_mutable: 1,
            token_kind: TokenKind::spec_from_decimals(decimals).spec_as_u8(),
            update_authority: args.initial_update_authority,
            mint,
            royalty_bps: zeros(2),
            name_len: 0,
            name: zeros(MAX_NAME_LEN as nat),
            symbol_len: 0,
            symbol: zeros(MAX_SYMBOL_LEN as nat),
            uri_len: 0,
            uri: zeros(MAX_URI_LEN as nat),
            creator_count: 0,
            creators: creator_slots(Seq::empty()),
        },
        args.content,
    )
}

/// What `CreateMetadata` decides for the accounts `[metadata, mint, mint authority, payer,
/// system program]`, the payload `data` and the token programs' readings of the mint: the
/// record to create, or the error.
pub open spec fn create_spec(
    program_id: Seq<u8>,
    accounts: Seq<AccountState>,
    data: Seq<u8>,
    readings: MintReadings,
) -> Result<MetadataView, ProgramError> {
    if accounts.len() != 5 {
        Err(ProgramError::NotEnoughAccountKeys)
    } else if data.len() != create_args_len() {
        Err(custom_error(TokenMetadataError::InvalidInstructionData))
    } else {
        let args = parse_create_args(data);
        let a = args.content;
        match a.length_error() {
            Some(e) => Err(custom_error(e)),
            None => if !accounts[0].is_writable {
                Err(ProgramError::InvalidAccountData)
            } else if !accounts[3].is_signer {
                Err(custom_error(TokenMetadataError::MissingRequiredSignature))
            } else if !accounts[3].is_writable {
                Err(ProgramError::InvalidAccountData)
            } else if accounts[4].address != system_program_id() {
                Err(custom_error(TokenMetadataError::IncorrectProgramId))
            } else {
                match read_mint_spec(accounts[1], readings) {
                    Err(e) => Err(e),
                    Ok(info) => match mint_authority_error(info.mint_authority, accounts[2]) {
                        Some(e) => Err(e),
                        None => if metadata_address(accounts[1].address, args.bump, program_id)
                            != accounts[0].address {
                            Err(custom_error(TokenMetadataError::InvalidMetadataAddress))
                        } else {
                            match (if info.program == TokenProgramKind::Token2022 {
                                metadata_pointer_spec(accounts[1].data)
                            } else {
                                Ok(None)
                            }) {
                                Err(e) => Err(e),
                                Ok(Some(pointer)) if pointer != accounts[0].address => Err(
                                    custom_error(TokenMetadataError::InvalidMetadataPointer),
                                ),
                                _ => if a.creator_count > MAX_CREATORS {
                                    Err(custom_error(TokenMetadataError::TooManyCreators))
                                } else {
                                    match content_error(
                                        a.name_bytes(),
                                        a.symbol_bytes(),
                                        a.uri_bytes(),
                                        a.royalty(),
                                        unverified_entries(a.creator_list()),
                                    ) {
                                        Some(e) => Err(custom_error(e)),
                                        None => Ok(
                                            created_record(args, info.decimals, accounts[1].address),
                                        ),
                                    }
                                },
                            }
                        },
                    },
                }
            },
        }
    }
}

/// What creation leaves for the system program to do: allocate `space` bytes at the metadata
/// address (owned by this program, funded by the payer, signed for with the seeds
/// `["metadata", mint, [bump]]`), after which `record` is written into it.
#[derive(Clone, Copy, Debug)]
pub struct CreatePlan {
    pub bump: u8,
    pub space: u64,
    pub record: TokenMetadata,
}

/// Checks a `CreateMetadata` request: payload, payer and system program, that the mint is a
/// legitimate mint whose authority signed, that the metadata account is the mint's metadata
/// address, that a Token-2022 mint's `MetadataPointer` (if set) points at it, and the content.
/// Returns the plan for the account to create.
#[verifier::loop_isolation(false)]
pub fn process_create(
    program_id: &Address,
    accounts: &Vec<AccountView>,
    data: &[u8],
    mint_readings: &MintReadings,
) -> (r: Result<CreatePlan, ProgramError>)
    ensures
        match create_spec(program_id@, accounts.deep_view(), data@, *mint_readings) {
            Ok(record) => r.is_ok() && r.unwrap().record@ == record && r.unwrap().bump
                == parse_create_args(data@).bump && r.unwrap().space == TokenMetadata::LEN,
            Err(e) => r == Err::<CreatePlan, ProgramError>(e),
        },
{
    if accounts.len() != 5 {
        return Err(ProgramError::NotEnoughAccountKeys);
    }
    let args = match CreateMetadataArgs::from_bytes(data) {
        Ok(a) => a,
        Err(e) => {
            return Err(e);
        },
    };
    if let Err(e) = args.content.validate_lengths() {
        return Err(e);
    }
    let metadata_account = &accounts[0];
    let mint_account = &accounts[1];
    let mint_authority_account = &accounts[2];
    let payer_account = &accounts[3];
    let system_program_account = &accounts[4];
    if let Err(e) = assert_writable(metadata_account) {
        return Err(e);
    }
    if let Err(e) = assert_signer(payer_account) {
        return Err(e);
    }
    if let Err(e) = assert_writable(payer_account) {
        return Err(e);
    }
    let system_id = Address::new_from_array(system_program_id_bytes());
    if let Err(e) = assert_address(system_program_account, &system_id) {
        return Err(e);
    }
    let mint_info = match read_mint(mint_account, mint_readings) {
        Ok(info) => info,
        Err(e) => {
            return Err(e);
        },
    };
    let mint_authority = match &mint_info.mint_authority {
        Some(a) => Some(a),
        None => None,
    };
    if let Err(e) = assert_mint_authority_matches(mint_authority, mint_authority_account) {
        return Err(e);
    }
    if let Err(e) = verify_metadata_address(
        mint_account.address(),
        args.bump,
        program_id,
        metadata_account.address(),
    ) {
        return Err(e);
    }
    if mint_info.program == TokenProgramKind::Token2022 {
        match read_metadata_pointer(&mint_account.data) {
            Err(e) => {
                return Err(e);
            },
            Ok(Some(pointer)) => {
                if pointer != *metadata_account.address() {
                    return Err(ProgramError::from(TokenMetadataError::InvalidMetadataPointer));
                }
            },
            Ok(None) => {},
        }
    }
    let creator_inputs = match args.content.creators() {
        Ok(c) => c,
        Err(e) => {
            return Err(e);
        },
    };
    let entries = creator_entries(creator_inputs);
    let creator_list = &entries[0..creator_inputs.len()];
    assert(entry_views(creator_list@) =~= unverified_entries(args@.content.creator_list()));
    if let Err(e) = validate_metadata_content(
        args.content.name(),
        args.content.symbol(),
        args.content.uri(),
        args.content.royalty_bps(),
        creator_list,
    ) {
        return Err(e);
    }
    let token_kind = TokenKind::from_decimals(mint_info.decimals);
    let mut record = TokenMetadata {
        discriminator: DISCRIMINATOR_TOKEN_METADATA_V1,
        bump: args.bump,
        is_mutable: 1,
        token_kind: token_kind.as_u8(),
        update_authority: args.initial_update_authority,
        mint: *mint_account.address(),
        royalty_bps: [0u8; 2],
        name_len: 0,
        name: [0u8; MAX_NAME_LEN],
        symbol_len: 0,
        symbol: [0u8; MAX_SYMBOL_LEN],
        uri_len: 0,
        uri: [0u8; MAX_URI_LEN],
        creator_count: 0,
        creators: [CreatorEntry::empty(); MAX_CREATORS],
    };
    let ghost base = record@;
    assert(base.creators =~= creator_slots(Seq::empty()));
    assert(base.royalty_bps =~= zeros(2));
    assert(base.name =~= zeros(MAX_NAME_LEN as nat));
    assert(base.symbol =~= zeros(MAX_SYMBOL_LEN as nat));
    assert(base.uri =~= zeros(MAX_URI_LEN as nat));
    record.set_royalty_bps(args.content.royalty_bps());
    record.set_content(args.content.name(), args.content.symbol(), args.content.uri());
    record.set_creators(creator_list);
    assert(record@.creators =~= creator_slots(unverified_entries(args@.content.creator_list())));
    assert(record@ =~= created_record(args@, mint_info.decimals, mint_account.address@));
    Ok(CreatePlan { bump: args.bump, space: TokenMetadata::LEN as u64, record })
}

/// What finishing a creation does to the accounts once the metadata account exists: the
/// planned record is written into it, provided it is this program's, of the right size and
/// still uninitialized.
pub open spec fn finish_create_spec(
    program_id: Seq<u8>,
    accounts: Seq<AccountState>,
    record: MetadataView,
) -> Result<Seq<AccountState>, ProgramError> {
    if accounts.len() != 5 {
        Err(ProgramError::NotEnoughAccountKeys)
    } else {
        match load_uninitialized_error(accounts[0], program_id) {
            Some(e) => Err(e),
            None => Ok(accounts.update(0, with_data(accounts[0], metadata_bytes(record)))),
        }
    }
}

/// Writes the planned record into the newly created metadata account, refusing an account
/// that is not this program's, has the wrong size, or is already initialized.
pub fn finish_create(program_id: &Address, accounts: &mut Vec<AccountView>, plan: &CreatePlan) -> (r:
    Result<(), ProgramError>)
    ensures
        outcome_holds(
            finish_create_spec(program_id@, old(accounts).deep_view(), plan.record@),
            r,
            old(accounts).deep_view(),
            final(accounts).deep_view(),
        ),
{
    if accounts.len() != 5 {
        return Err(ProgramError::NotEnoughAccountKeys);
    }
    if let Err(e) = TokenMetadata::from_uninitialized_account_view_mut(&accounts[0], program_id) {
        return Err(e);
    }
    let ghost before = accounts.deep_view();
    plan.record.store(&mut accounts[0]);
    assert(accounts.deep_view() =~= before.update(
        0,
        with_data(before[0], metadata_bytes(plan.record@)),
    ));
    Ok(())
}

} // verus!
