//! Properties of the program as a whole, stated over the handlers' specifications.
use vstd::prelude::*;

use crate::account::{accounts_wf, closed_state, AccountState};
use crate::address::zeros;
use crate::bytes::{le_u16, u16_le_bytes};
use crate::checks::{content_error, share_total, update_authority_error, MintReadings};
use crate::entrypoint::{instruction_spec, process_instruction_spec};
use crate::error::{custom_error, ProgramError, TokenMetadataError};
use crate::instruction::{
    discriminator_of, lemma_discriminator_roundtrip, ContentView, CreatorInputView, parse_content, parse_create_args,
    parse_set_authority_args, TokenMetadataInstruction,
};
use crate::processor::close::close_spec;
use crate::processor::create::{create_spec, finish_create_spec};
use crate::processor::set_immutable::set_immutable_spec;
use crate::processor::set_update_authority::set_update_authority_spec;
use crate::processor::update::update_spec;
use crate::processor::verify_creator::{creator_index, set_creator_verified_spec, with_verified};
use crate::pda::metadata_address;
use crate::processor::{unverified_entries, with_data};
use crate::programs::{spl_token_2022_id, spl_token_id, system_program_id};
use crate::state::mint_extensions::{metadata_pointer_spec, scan_extensions};
use crate::state::metadata::{
    lemma_metadata_bytes_parse, lemma_parse_metadata_bytes, load_error, metadata_bytes,
    metadata_len, parse_metadata, CreatorEntryView, MetadataView,
};
use crate::state::{
    TokenKind, DISCRIMINATOR_TOKEN_METADATA_V1, MAX_CREATORS, MAX_NAME_LEN, MAX_SYMBOL_LEN,
    MAX_URI_LEN,
};

verus! {

/// The creators' shares added up, from the first creator to the last.
pub open spec fn shares_sum(cs: Seq<CreatorEntryView>) -> int
    decreases cs.len(),
{
    if cs.len() == 0 {
        0
    } else {
        cs[0].share as int + shares_sum(cs.subrange(1, cs.len() as int))
    }
}

proof fn lemma_shares_sum_last(cs: Seq<CreatorEntryView>)
    requires
        cs.len() > 0,
    ensures
        shares_sum(cs) == shares_sum(cs.drop_last()) + cs.last().share as int,
    decreases cs.len(),
{
    if cs.len() > 1 {
        let tail = cs.subrange(1, cs.len() as int);
        lemma_shares_sum_last(tail);
        assert(tail.drop_last() =~= cs.drop_last().subrange(1, cs.len() - 1));
        assert(tail.last() == cs.last());
        assert(cs.drop_last()[0] == cs[0]);
        assert(shares_sum(cs.drop_last()) == cs[0].share as int + shares_sum(
            cs.drop_last().subrange(1, cs.len() - 1),
        ));
    } else {
        assert(shares_sum(cs.drop_last()) == 0);
        assert(shares_sum(cs.subrange(1, cs.len() as int)) == 0);
    }
}

/// Adding the shares up from either end gives the same total.
pub proof fn lemma_share_total_is_sum(cs: Seq<CreatorEntryView>)
    ensures
        share_total(cs) == shares_sum(cs),
    decreases cs.len(),
{
    if cs.len() > 0 {
        lemma_share_total_is_sum(cs.drop_last());
        lemma_shares_sum_last(cs);
    }
}

/// The content rules, each stated on its own: content is accepted exactly when the name,
/// symbol and uri fit their buffers and are UTF-8, the royalty is at most 10000 basis points,
/// there are at most five creators, no two creators (at any two positions) share an address,
/// and a non-empty creator list has shares adding up to exactly 100. Where only the creator
/// list is at fault, a repeated address anywhere in it is reported as
/// `DuplicateCreatorAddress`, and distinct creators whose shares miss 100 as
/// `CreatorSharesMustSumTo100`.
pub proof fn lemma_content_rules(
    name: Seq<u8>,
    symbol: Seq<u8>,
    uri: Seq<u8>,
    royalty_bps: u16,
    cs: Seq<CreatorEntryView>,
)
    ensures
        content_error(name, symbol, uri, royalty_bps, cs) is None <==> {
            &&& name.len() <= 32
            &&& symbol.len() <= 10
            &&& uri.len() <= 200
            &&& vstd::utf8::valid_utf8(name)
            &&& vstd::utf8::valid_utf8(symbol)
            &&& vstd::utf8::valid_utf8(uri)
            &&& royalty_bps <= 10000
            &&& cs.len() <= 5
            &&& forall|i: int, j: int| 0 <= i < j < cs.len() ==> cs[i].address != cs[j].address
            &&& (cs.len() == 0 || shares_sum(cs) == 100)
        },
        name.len() <= 32 && symbol.len() <= 10 && uri.len() <= 200 && vstd::utf8::valid_utf8(name)
            && vstd::utf8::valid_utf8(symbol) && vstd::utf8::valid_utf8(uri) && royalty_bps
            <= 10000 && cs.len() <= 5 && (exists|i: int, j: int|
            0 <= i < j < cs.len() && cs[i].address == cs[j].address) ==> content_error(
            name,
            symbol,
            uri,
            royalty_bps,
            cs,
        ) == Some(TokenMetadataError::DuplicateCreatorAddress),
        name.len() <= 32 && symbol.len() <= 10 && uri.len() <= 200 && vstd::utf8::valid_utf8(name)
            && vstd::utf8::valid_utf8(symbol) && vstd::utf8::valid_utf8(uri) && royalty_bps
            <= 10000 && 0 < cs.len() <= 5 && (forall|i: int, j: int|
            0 <= i < j < cs.len() ==> cs[i].address != cs[j].address) && shares_sum(cs) != 100
            ==> content_error(name, symbol, uri, royalty_bps, cs) == Some(
            TokenMetadataError::CreatorSharesMustSumTo100,
        ),
{
    lemma_share_total_is_sum(cs);
}

/// Immutable metadata is frozen: once the record in the metadata account is immutable,
/// every instruction that would change it (update, authority change, setting immutable
/// again, creator (un)verification, closing) fails, and a failing instruction leaves every
/// account as it was.
pub proof fn lemma_immutable_metadata_is_frozen(
    program_id: Seq<u8>,
    accounts: Seq<AccountState>,
    ix: TokenMetadataInstruction,
    payload: Seq<u8>,
    readings: MintReadings,
)
    requires
        ix != TokenMetadataInstruction::CreateMetadata,
        accounts.len() >= 1,
        load_error(accounts[0], program_id) is None,
        !parse_metadata(accounts[0].data).mutable(),
    ensures
        instruction_spec(program_id, accounts, ix, payload, readings) is Err,
{
}

/// An initialized metadata account can never be initialized again: finishing a creation on
/// it fails with `AlreadyInitialized`.
pub proof fn lemma_no_reinitialization(
    program_id: Seq<u8>,
    accounts: Seq<AccountState>,
    record: crate::state::metadata::MetadataView,
)
    requires
        accounts.len() == 5,
        load_error(accounts[0], program_id) is None,
    ensures
        finish_create_spec(program_id, accounts, record) == Err::<Seq<AccountState>, ProgramError>(
            custom_error(TokenMetadataError::AlreadyInitialized),
        ),
{
    assert(crate::state::DISCRIMINATOR_TOKEN_METADATA_V1@[0] != crate::state::DISCRIMINATOR_UNINITIALIZED@[0]);
    assert(accounts[0].data.subrange(0, 8)[0] == accounts[0].data[0]);
}


/// Writing a well-formed V1 record into an account of the program gives an account that
/// reads back as that record.
proof fn lemma_stored_record_loads(program_id: Seq<u8>, account: AccountState, v: MetadataView)
    requires
        v.wf(),
        account.owner == program_id,
        v.discriminator == DISCRIMINATOR_TOKEN_METADATA_V1@,
    ensures
        load_error(with_data(account, metadata_bytes(v)), program_id) is None,
        parse_metadata(metadata_bytes(v)) == v,
{
    lemma_parse_metadata_bytes(v);
    assert(metadata_bytes(v).subrange(0, 8) == parse_metadata(metadata_bytes(v)).discriminator);
}

/// The record read from a loadable account is well-formed and carries the V1 discriminator.
proof fn lemma_loaded_record(program_id: Seq<u8>, account: AccountState)
    requires
        load_error(account, program_id) is None,
    ensures
        parse_metadata(account.data).wf(),
        parse_metadata(account.data).discriminator == DISCRIMINATOR_TOKEN_METADATA_V1@,
        account.owner == program_id,
        account.data.len() == metadata_len(),
{
    lemma_metadata_bytes_parse(account.data);
}

/// Setting metadata immutable is one-way: afterwards the stored record reads back as
/// immutable with every other field as before, no other account or account property has
/// changed, and asking again fails with `AlreadyImmutable`.
pub proof fn lemma_set_immutable_is_one_way(
    program_id: Seq<u8>,
    accounts: Seq<AccountState>,
    after: Seq<AccountState>,
)
    requires
        set_immutable_spec(program_id, accounts) == Ok::<Seq<AccountState>, ProgramError>(after),
    ensures
        load_error(after[0], program_id) is None,
        !parse_metadata(after[0].data).mutable(),
        parse_metadata(after[0].data) == (MetadataView {
            is_mutable: parse_metadata(after[0].data).is_mutable,
            ..parse_metadata(accounts[0].data)
        }),
        after.len() == 2,
        after[1] == accounts[1],
        after[0] == (AccountState { data: after[0].data, ..accounts[0] }),
        set_immutable_spec(program_id, after) == Err::<Seq<AccountState>, ProgramError>(
            custom_error(TokenMetadataError::AlreadyImmutable),
        ),
{
    lemma_loaded_record(program_id, accounts[0]);
    let m = parse_metadata(accounts[0].data);
    lemma_stored_record_loads(program_id, accounts[0], MetadataView { is_mutable: 0, ..m });
}


/// Only the update authority can change or close metadata: a successful update, authority
/// change, immutability flip or close was signed by the account whose address is the stored
/// update authority.
pub proof fn lemma_changes_require_update_authority(
    program_id: Seq<u8>,
    accounts: Seq<AccountState>,
    data: Seq<u8>,
)
    ensures
        update_spec(program_id, accounts, data) is Ok ==> accounts[2].is_signer
            && accounts[2].address == parse_metadata(accounts[0].data).update_authority,
        set_update_authority_spec(program_id, accounts, data) is Ok ==> accounts[1].is_signer
            && accounts[1].address == parse_metadata(accounts[0].data).update_authority,
        set_immutable_spec(program_id, accounts) is Ok ==> accounts[1].is_signer
            && accounts[1].address == parse_metadata(accounts[0].data).update_authority,
        close_spec(program_id, accounts) is Ok ==> accounts[2].is_signer && accounts[2].address
            == parse_metadata(accounts[0].data).update_authority,
{
}

/// Update and close act only on the metadata of the mint they are given, and a close only
/// on a writable metadata account with a writable destination.
pub proof fn lemma_changes_match_the_mint(program_id: Seq<u8>, accounts: Seq<AccountState>, data: Seq<u8>)
    ensures
        update_spec(program_id, accounts, data) is Ok ==> parse_metadata(accounts[0].data).mint
            == accounts[1].address,
        close_spec(program_id, accounts) is Ok ==> parse_metadata(accounts[0].data).mint
            == accounts[1].address && accounts[0].is_writable && accounts[3].is_writable,
{
}

/// Renouncing is final: after a successful renounce the stored update authority is the
/// all-zero address (nothing else having changed), and no account with any other address is accepted as update authority.
pub proof fn lemma_renounce_locks_out_everyone(
    program_id: Seq<u8>,
    accounts: Seq<AccountState>,
    data: Seq<u8>,
    after: Seq<AccountState>,
    anyone: AccountState,
)
    requires
        set_update_authority_spec(program_id, accounts, data) == Ok::<
            Seq<AccountState>,
            ProgramError,
        >(after),
        parse_set_authority_args(data).renounce != 0,
        anyone.address != zeros(32),
    ensures
        load_error(after[0], program_id) is None,
        parse_metadata(after[0].data).update_authority == zeros(32),
        parse_metadata(after[0].data) == (MetadataView {
            update_authority: parse_metadata(after[0].data).update_authority,
            ..parse_metadata(accounts[0].data)
        }),
        after.len() == 2,
        after[1] == accounts[1],
        after[0] == (AccountState { data: after[0].data, ..accounts[0] }),
        update_authority_error(parse_metadata(after[0].data), anyone) == Some(
            custom_error(TokenMetadataError::UpdateAuthorityIncorrect),
        ),
{
    lemma_loaded_record(program_id, accounts[0]);
    let m = parse_metadata(accounts[0].data);
    lemma_stored_record_loads(program_id, accounts[0], MetadataView { update_authority: zeros(32), ..m });
}

/// A transfer hands the authority over: afterwards the stored update authority is the new,
/// nonzero address (nothing else having changed), and the former authority is refused unless it is the new one.
pub proof fn lemma_transfer_replaces_authority(
    program_id: Seq<u8>,
    accounts: Seq<AccountState>,
    data: Seq<u8>,
    after: Seq<AccountState>,
)
    requires
        set_update_authority_spec(program_id, accounts, data) == Ok::<
            Seq<AccountState>,
            ProgramError,
        >(after),
        parse_set_authority_args(data).renounce == 0,
    ensures
        load_error(after[0], program_id) is None,
        parse_metadata(after[0].data).update_authority == parse_set_authority_args(
            data,
        ).new_update_authority,
        parse_set_authority_args(data).new_update_authority != zeros(32),
        parse_metadata(after[0].data) == (MetadataView {
            update_authority: parse_metadata(after[0].data).update_authority,
            ..parse_metadata(accounts[0].data)
        }),
        after.len() == 2,
        after[1] == accounts[1],
        after[0] == (AccountState { data: after[0].data, ..accounts[0] }),
        parse_set_authority_args(data).new_update_authority != accounts[1].address
            ==> update_authority_error(parse_metadata(after[0].data), accounts[1]) == Some(
            custom_error(TokenMetadataError::UpdateAuthorityIncorrect),
        ),
{
    lemma_loaded_record(program_id, accounts[0]);
    let m = parse_metadata(accounts[0].data);
    let new_authority = parse_set_authority_args(data).new_update_authority;
    assert(new_authority.len() == 32);
    lemma_stored_record_loads(program_id, accounts[0], MetadataView { update_authority: new_authority, ..m });
}

proof fn lemma_creator_index_found(cs: Seq<CreatorEntryView>, address: Seq<u8>, from: int)
    requires
        creator_index(cs, address, from) is Some,
    ensures
        from <= creator_index(cs, address, from).unwrap() < cs.len(),
        0 <= creator_index(cs, address, from).unwrap(),
        cs[creator_index(cs, address, from).unwrap()].address == address,
        forall|j: int|
            from <= j < creator_index(cs, address, from).unwrap() ==> (#[trigger] cs[j]).address
                != address,
    decreases cs.len() - from,
{
    if from >= 0 && from < cs.len() && cs[from].address != address {
        lemma_creator_index_found(cs, address, from + 1);
    }
}

/// Only a creator can change its own verification: a successful (un)verification was signed
/// by an account whose address is one of the listed creators, and changes nothing but that
/// creator's `verified` flag.
pub proof fn lemma_only_creator_changes_verification(
    program_id: Seq<u8>,
    accounts: Seq<AccountState>,
    verified: bool,
    after: Seq<AccountState>,
)
    requires
        set_creator_verified_spec(program_id, accounts, verified) == Ok::<
            Seq<AccountState>,
            ProgramError,
        >(after),
        parse_metadata(accounts[0].data).creator_count <= crate::state::MAX_CREATORS,
    ensures
        accounts[1].is_signer,
        after[1] == accounts[1],
        load_error(after[0], program_id) is None,
        exists|k: int|
            0 <= k < parse_metadata(accounts[0].data).creator_count && #[trigger] parse_metadata(
                accounts[0].data,
            ).creators[k].address == accounts[1].address && parse_metadata(after[0].data)
                == with_verified(parse_metadata(accounts[0].data), k, verified),
{
    lemma_loaded_record(program_id, accounts[0]);
    let m = parse_metadata(accounts[0].data);
    let list = m.creator_list();
    lemma_creator_index_found(list, accounts[1].address, 0);
    let k = creator_index(list, accounts[1].address, 0).unwrap();
    assert(list[k] == m.creators[k]);
    let v = with_verified(m, k, verified);
    assert(v.wf());
    lemma_stored_record_loads(program_id, accounts[0], v);
}

/// `VerifyCreator` sets and `UnverifyCreator` clears the signer's flag, whatever it was: on
/// success the first listed creator whose address is the signer's has `verified` equal to 1
/// after `VerifyCreator` and 0 after `UnverifyCreator`, keeps its address and share, and
/// every other creator slot and every other field of the record, and every other property
/// of the two accounts, is as before.
pub proof fn lemma_verification_sets_the_signers_flag(
    program_id: Seq<u8>,
    accounts: Seq<AccountState>,
    verified: bool,
    after: Seq<AccountState>,
)
    requires
        set_creator_verified_spec(program_id, accounts, verified) == Ok::<
            Seq<AccountState>,
            ProgramError,
        >(after),
        parse_metadata(accounts[0].data).creator_count <= MAX_CREATORS,
    ensures
        after.len() == 2,
        after[1] == accounts[1],
        after[0] == (AccountState { data: after[0].data, ..accounts[0] }),
        load_error(after[0], program_id) is None,
        ({
            let m = parse_metadata(accounts[0].data);
            let n = parse_metadata(after[0].data);
            &&& n == (MetadataView { creators: n.creators, ..m })
            &&& exists|k: int|
                {
                    &&& 0 <= k < m.creator_count
                    &&& #[trigger] m.creators[k].address == accounts[1].address
                    &&& forall|j: int| 0 <= j < k ==> (#[trigger] m.creators[j]).address != accounts[1].address
                    &&& n.creators[k].verified == (if verified { 1u8 } else { 0u8 })
                    &&& n.creators[k].address == m.creators[k].address
                    &&& n.creators[k].share == m.creators[k].share
                    &&& forall|j: int| 0 <= j < 5 && j != k ==> (#[trigger] n.creators[j]) == m.creators[j]
                }
        }),
{
    lemma_loaded_record(program_id, accounts[0]);
    let m = parse_metadata(accounts[0].data);
    let list = m.creator_list();
    lemma_creator_index_found(list, accounts[1].address, 0);
    let k = creator_index(list, accounts[1].address, 0).unwrap();
    assert(list[k] == m.creators[k]);
    assert forall|j: int| 0 <= j < k implies (#[trigger] m.creators[j]).address != accounts[1].address by {
        assert(list[j] == m.creators[j]);
    }
    let v = with_verified(m, k, verified);
    assert(v.wf());
    lemma_stored_record_loads(program_id, accounts[0], v);
    let n = parse_metadata(after[0].data);
    assert(n == v);
    assert(n.creators[k].verified == (if verified { 1u8 } else { 0u8 }));
}

/// What an update writes is what a read gives back: the stored record's name, symbol, uri,
/// royalty and creators are those of the payload (creators unverified), while authority,
/// mint, mutability, bump, token kind and every other account are kept.
pub proof fn lemma_update_then_read(
    program_id: Seq<u8>,
    accounts: Seq<AccountState>,
    data: Seq<u8>,
    after: Seq<AccountState>,
)
    requires
        update_spec(program_id, accounts, data) == Ok::<Seq<AccountState>, ProgramError>(after),
    ensures
        load_error(after[0], program_id) is None,
        parse_metadata(after[0].data).name_bytes() == parse_content(data).name_bytes(),
        parse_metadata(after[0].data).symbol_bytes() == parse_content(data).symbol_bytes(),
        parse_metadata(after[0].data).uri_bytes() == parse_content(data).uri_bytes(),
        parse_metadata(after[0].data).royalty() == parse_content(data).royalty(),
        parse_metadata(after[0].data).creator_list() == unverified_entries(
            parse_content(data).creator_list(),
        ),
        parse_metadata(after[0].data).update_authority == parse_metadata(
            accounts[0].data,
        ).update_authority,
        parse_metadata(after[0].data).mint == parse_metadata(accounts[0].data).mint,
        parse_metadata(after[0].data).mutable(),
        parse_metadata(after[0].data).is_mutable == parse_metadata(accounts[0].data).is_mutable,
        parse_metadata(after[0].data).bump == parse_metadata(accounts[0].data).bump,
        parse_metadata(after[0].data).token_kind == parse_metadata(accounts[0].data).token_kind,
        after.len() == 3,
        after[1] == accounts[1],
        after[2] == accounts[2],
        after[0] == (AccountState { data: after[0].data, ..accounts[0] }),
{
    lemma_loaded_record(program_id, accounts[0]);
    let m = parse_metadata(accounts[0].data);
    let a = parse_content(data);
    let v = crate::processor::with_content(m, a);
    assert(v.creators.len() == 5);
    assert forall|i: int| 0 <= i < 5 implies (#[trigger] v.creators[i]).address.len() == 32 by {
        if i < a.creator_count {
            assert(a.creator_list()[i] == a.creators[i]);
        }
    }
    lemma_stored_record_loads(program_id, accounts[0], v);
    assert(v.name_bytes() =~= a.name_bytes());
    assert(v.symbol_bytes() =~= a.symbol_bytes());
    assert(v.uri_bytes() =~= a.uri_bytes());
    assert(v.creator_list() =~= unverified_entries(a.creator_list()));
    let x = a.royalty();
    assert(le_u16(u16_le_bytes(x)[0], u16_le_bytes(x)[1]) == x);
}

/// The type field of the extension entry that starts at byte `o` of `d` (little-endian).
pub open spec fn extension_type_at(d: Seq<u8>, o: int) -> int {
    d[o] as int + 256 * d[o + 1] as int
}

/// The length field of the extension entry that starts at byte `o` of `d` (little-endian).
pub open spec fn extension_len_at(d: Seq<u8>, o: int) -> int {
    d[o + 2] as int + 256 * d[o + 3] as int
}

/// `offs` are the offsets of the first entries of the mint's extension list, in order: the
/// list starts right after the account-type byte at 165, and every entry before the last one
/// listed is complete (4-byte header and value inside the data), has a type that is neither
/// 0 (the end of the list) nor 18 (`MetadataPointer`), and is followed directly by the next.
pub open spec fn extension_entries(d: Seq<u8>, offs: Seq<int>) -> bool {
    &&& d.len() > 165
    &&& offs.len() > 0
    &&& offs[0] == 166
    &&& forall|i: int|
        0 <= i < offs.len() - 1 ==> {
            &&& #[trigger] offs[i] + 4 + extension_len_at(d, offs[i]) <= d.len()
            &&& extension_type_at(d, offs[i]) != 0
            &&& extension_type_at(d, offs[i]) != 18
            &&& offs[i + 1] == offs[i] + 4 + extension_len_at(d, offs[i])
        }
}

proof fn lemma_extension_entries_reach(d: Seq<u8>, offs: Seq<int>, k: int)
    requires
        extension_entries(d, offs),
        0 <= k < offs.len(),
    ensures
        offs[k] >= 166,
        metadata_pointer_spec(d) == scan_extensions(d, offs[k]),
    decreases k,
{
    if k > 0 {
        lemma_extension_entries_reach(d, offs, k - 1);
        let o = offs[k - 1];
        assert(o + 4 + extension_len_at(d, o) <= d.len());
        assert(le_u16(d[o], d[o + 1]) as int == extension_type_at(d, o));
        assert(le_u16(d[o + 2], d[o + 3]) as int == extension_len_at(d, o));
    }
}

/// The `MetadataPointer` is found wherever it stands in the extension list: when the entries
/// before it are complete entries of other nonzero types (of any length, zero included) and
/// it is a complete 64-byte `MetadataPointer` whose metadata address (its last 32 bytes) is
/// set, that address is the result; with the address all zero, there is no pointer.
pub proof fn lemma_metadata_pointer_found(d: Seq<u8>, offs: Seq<int>)
    requires
        extension_entries(d, offs),
        extension_type_at(d, offs.last()) == 18,
        extension_len_at(d, offs.last()) == 64,
        offs.last() + 68 <= d.len(),
    ensures
        d.subrange(offs.last() + 36, offs.last() + 68) != zeros(32) ==> metadata_pointer_spec(d)
            == Ok::<Option<Seq<u8>>, ProgramError>(
            Some(d.subrange(offs.last() + 36, offs.last() + 68)),
        ),
        d.subrange(offs.last() + 36, offs.last() + 68) == zeros(32) ==> metadata_pointer_spec(d)
            == Ok::<Option<Seq<u8>>, ProgramError>(None),
{
    let o = offs.last();
    lemma_extension_entries_reach(d, offs, offs.len() - 1);
    assert(le_u16(d[o], d[o + 1]) as int == extension_type_at(d, o));
    assert(le_u16(d[o + 2], d[o + 3]) as int == extension_len_at(d, o));
}

/// The extension list ends at the first entry of type 0, or where fewer than 4 bytes are
/// left: when no `MetadataPointer` comes before that point, there is no pointer.
pub proof fn lemma_metadata_pointer_absent(d: Seq<u8>, offs: Seq<int>)
    requires
        extension_entries(d, offs),
        offs.last() + 4 > d.len() || extension_type_at(d, offs.last()) == 0,
    ensures
        metadata_pointer_spec(d) == Ok::<Option<Seq<u8>>, ProgramError>(None),
{
    let o = offs.last();
    lemma_extension_entries_reach(d, offs, offs.len() - 1);
    if o + 4 <= d.len() {
        assert(le_u16(d[o], d[o + 1]) as int == extension_type_at(d, o));
    }
}

/// A truncated entry makes the list malformed: when an entry of nonzero type reached through
/// complete entries claims a value running past the end of the data, the result is
/// `InvalidMint`; so is a `MetadataPointer` entry whose value is not 64 bytes long.
pub proof fn lemma_metadata_pointer_malformed(d: Seq<u8>, offs: Seq<int>)
    requires
        extension_entries(d, offs),
        offs.last() + 4 <= d.len(),
        extension_type_at(d, offs.last()) != 0,
        offs.last() + 4 + extension_len_at(d, offs.last()) > d.len() || (extension_type_at(
            d,
            offs.last(),
        ) == 18 && extension_len_at(d, offs.last()) != 64),
    ensures
        metadata_pointer_spec(d) == Err::<Option<Seq<u8>>, ProgramError>(
            custom_error(TokenMetadataError::InvalidMint),
        ),
{
    let o = offs.last();
    lemma_extension_entries_reach(d, offs, offs.len() - 1);
    assert(le_u16(d[o], d[o + 1]) as int == extension_type_at(d, o));
    assert(le_u16(d[o + 2], d[o + 3]) as int == extension_len_at(d, o));
}

/// `authority` may change the record in `metadata`: the account loads as metadata of the
/// program, the record is mutable, and `authority` is its update authority and signed.
pub open spec fn authorized_on_mutable(
    program_id: Seq<u8>,
    metadata: AccountState,
    authority: AccountState,
) -> bool {
    &&& load_error(metadata, program_id) is None
    &&& parse_metadata(metadata.data).is_mutable != 0
    &&& parse_metadata(metadata.data).update_authority == authority.address
    &&& authority.is_signer
}

/// Closing always goes through when it is allowed: with both the metadata and the
/// destination writable, the update authority signing for mutable metadata of the given mint,
/// and room in the destination's balance, the close succeeds, whichever account the
/// destination is (the authority itself included); the destination receives every lamport of
/// the metadata account, the metadata account is left with no owner, lamports or data, and
/// the mint and authority accounts are untouched.
pub proof fn lemma_close_succeeds(program_id: Seq<u8>, accounts: Seq<AccountState>)
    requires
        accounts.len() == 4,
        accounts[0].is_writable,
        accounts[3].is_writable,
        authorized_on_mutable(program_id, accounts[0], accounts[2]),
        parse_metadata(accounts[0].data).mint == accounts[1].address,
        accounts[0].lamports + accounts[3].lamports <= u64::MAX,
    ensures
        close_spec(program_id, accounts) == Ok::<Seq<AccountState>, ProgramError>(
            seq![
                AccountState { owner: zeros(32), lamports: 0, data: Seq::empty(), ..accounts[0] },
                accounts[1],
                accounts[2],
                AccountState {
                    lamports: (accounts[0].lamports + accounts[3].lamports) as u64,
                    ..accounts[3]
                },
            ],
        ),
{
    assert(close_spec(program_id, accounts).unwrap() =~= seq![
        AccountState { owner: zeros(32), lamports: 0, data: Seq::empty(), ..accounts[0] },
        accounts[1],
        accounts[2],
        AccountState {
            lamports: (accounts[0].lamports + accounts[3].lamports) as u64,
            ..accounts[3]
        },
    ]);
}

/// Setting immutable goes through whenever the update authority signs for mutable metadata.
pub proof fn lemma_set_immutable_succeeds(program_id: Seq<u8>, accounts: Seq<AccountState>)
    requires
        accounts.len() == 2,
        authorized_on_mutable(program_id, accounts[0], accounts[1]),
    ensures
        set_immutable_spec(program_id, accounts) is Ok,
{
}

/// Changing the update authority goes through whenever the update authority signs for
/// mutable metadata and the payload either renounces or names a nonzero new authority; the
/// stored authority is then the all-zero address or the new one.
pub proof fn lemma_set_update_authority_succeeds(
    program_id: Seq<u8>,
    accounts: Seq<AccountState>,
    data: Seq<u8>,
)
    requires
        accounts.len() == 2,
        data.len() == 33,
        authorized_on_mutable(program_id, accounts[0], accounts[1]),
        data[0] != 0 || data.subrange(1, 33) != zeros(32),
    ensures
        set_update_authority_spec(program_id, accounts, data) is Ok,
        parse_metadata(set_update_authority_spec(program_id, accounts, data).unwrap()[0].data).update_authority
            == if data[0] != 0 {
            zeros(32)
        } else {
            data.subrange(1, 33)
        },
{
    let after = set_update_authority_spec(program_id, accounts, data).unwrap();
    if data[0] != 0 {
        let other = AccountState { address: seq![1u8], ..accounts[0] };
        assert(other.address.len() != zeros(32).len());
        lemma_renounce_locks_out_everyone(program_id, accounts, data, after, other);
    } else {
        lemma_transfer_replaces_authority(program_id, accounts, data, after);
    }
}

/// (Un)verification goes through whenever the signer is one of the listed creators of
/// mutable metadata.
pub proof fn lemma_verification_succeeds(
    program_id: Seq<u8>,
    accounts: Seq<AccountState>,
    verified: bool,
    k: int,
)
    requires
        accounts.len() == 2,
        accounts[1].is_signer,
        load_error(accounts[0], program_id) is None,
        parse_metadata(accounts[0].data).is_mutable != 0,
        0 <= k < parse_metadata(accounts[0].data).creator_count <= MAX_CREATORS,
        parse_metadata(accounts[0].data).creators[k].address == accounts[1].address,
    ensures
        set_creator_verified_spec(program_id, accounts, verified) is Ok,
{
    let m = parse_metadata(accounts[0].data);
    lemma_creator_index_total(m.creator_list(), accounts[1].address, 0, k);
}

/// Nobody but a listed creator can (un)verify: a signer whose address is none of the listed
/// creators' addresses is refused with `SignerNotACreator` on mutable metadata, and a request
/// that the claimed creator did not sign is refused with `MissingRequiredSignature`.
pub proof fn lemma_verification_refuses_others(
    program_id: Seq<u8>,
    accounts: Seq<AccountState>,
    verified: bool,
)
    requires
        accounts.len() == 2,
    ensures
        !accounts[1].is_signer ==> set_creator_verified_spec(program_id, accounts, verified)
            == Err::<Seq<AccountState>, ProgramError>(
            custom_error(TokenMetadataError::MissingRequiredSignature),
        ),
        accounts[1].is_signer && load_error(accounts[0], program_id) is None && parse_metadata(
            accounts[0].data,
        ).is_mutable != 0 && parse_metadata(accounts[0].data).creator_count <= MAX_CREATORS
            && (forall|k: int|
            0 <= k < parse_metadata(accounts[0].data).creator_count ==> (#[trigger] parse_metadata(
                accounts[0].data,
            ).creators[k]).address != accounts[1].address) ==> set_creator_verified_spec(
            program_id,
            accounts,
            verified,
        ) == Err::<Seq<AccountState>, ProgramError>(
            custom_error(TokenMetadataError::SignerNotACreator),
        ),
{
    let m = parse_metadata(accounts[0].data);
    if accounts[1].is_signer && load_error(accounts[0], program_id) is None && m.is_mutable != 0
        && m.creator_count <= MAX_CREATORS && (forall|k: int|
        0 <= k < m.creator_count ==> (#[trigger] m.creators[k]).address != accounts[1].address) {
        let list = m.creator_list();
        if creator_index(list, accounts[1].address, 0) is Some {
            lemma_creator_index_found(list, accounts[1].address, 0);
            let k = creator_index(list, accounts[1].address, 0).unwrap();
            assert(list[k] == m.creators[k]);
        }
    }
}

proof fn lemma_creator_index_total(cs: Seq<CreatorEntryView>, address: Seq<u8>, from: int, k: int)
    requires
        0 <= from <= k < cs.len(),
        cs[k].address == address,
    ensures
        creator_index(cs, address, from) is Some,
    decreases k - from,
{
    if cs[from].address != address {
        lemma_creator_index_total(cs, address, from + 1, k);
    }
}

/// The creators' shares of a payload added up, from the first creator to the last.
pub open spec fn input_shares_sum(cs: Seq<CreatorInputView>) -> int
    decreases cs.len(),
{
    if cs.len() == 0 {
        0
    } else {
        cs[0].share as int + input_shares_sum(cs.subrange(1, cs.len() as int))
    }
}

proof fn lemma_input_shares_sum(cs: Seq<CreatorInputView>)
    ensures
        shares_sum(unverified_entries(cs)) == input_shares_sum(cs),
    decreases cs.len(),
{
    if cs.len() > 0 {
        let tail = cs.subrange(1, cs.len() as int);
        lemma_input_shares_sum(tail);
        assert(unverified_entries(cs).subrange(1, cs.len() as int) =~= unverified_entries(tail));
    }
}

/// A content payload that obeys the content rules: name, symbol and uri fit their buffers
/// and are UTF-8, the royalty is at most 10000 basis points, at most five creators are
/// listed, no two of them share an address, and a non-empty list has shares adding up to
/// exactly 100.
pub open spec fn payload_content_valid(a: ContentView) -> bool {
    &&& a.name_len <= 32
    &&& a.symbol_len <= 10
    &&& a.uri_len <= 200
    &&& vstd::utf8::valid_utf8(a.name_bytes())
    &&& vstd::utf8::valid_utf8(a.symbol_bytes())
    &&& vstd::utf8::valid_utf8(a.uri_bytes())
    &&& a.royalty() <= 10000
    &&& a.creator_count <= 5
    &&& forall|i: int, j: int|
        0 <= i < j < a.creator_count ==> a.creators[i].address != a.creators[j].address
    &&& (a.creator_count == 0 || input_shares_sum(a.creator_list()) == 100)
}

/// Updating goes through whenever the update authority signs for mutable metadata of the
/// given mint and the payload's content obeys the content rules.
pub proof fn lemma_update_succeeds(program_id: Seq<u8>, accounts: Seq<AccountState>, data: Seq<u8>)
    requires
        accounts.len() == 3,
        data.len() == 413,
        authorized_on_mutable(program_id, accounts[0], accounts[2]),
        parse_metadata(accounts[0].data).mint == accounts[1].address,
        payload_content_valid(parse_content(data)),
    ensures
        update_spec(program_id, accounts, data) is Ok,
{
    let a = parse_content(data);
    let cs = unverified_entries(a.creator_list());
    lemma_input_shares_sum(a.creator_list());
    lemma_content_rules(a.name_bytes(), a.symbol_bytes(), a.uri_bytes(), a.royalty(), cs);
    assert forall|i: int, j: int| 0 <= i < j < cs.len() implies cs[i].address != cs[j].address by {
        assert(cs[i].address == a.creators[i].address);
        assert(cs[j].address == a.creators[j].address);
    }
}

/// Only a legitimate request can create metadata: a successful creation was made for a
/// mint owned by one of the two token programs whose reader accepts it as an initialized
/// mint, signed by that mint's authority and by a writable payer, with the system program,
/// into the writable account at the mint's metadata address for the given bump; on a
/// Token-2022 mint the extension list is well-formed and any metadata pointer it holds names
/// that very account. The record is a fungible asset (kind 1) exactly when the mint has no
/// decimals, and a fungible token (kind 0) otherwise.
pub proof fn lemma_create_requires_a_legitimate_request(
    program_id: Seq<u8>,
    accounts: Seq<AccountState>,
    data: Seq<u8>,
    readings: MintReadings,
)
    requires
        create_spec(program_id, accounts, data, readings) is Ok,
    ensures
        accounts.len() == 5,
        accounts[1].owner == spl_token_id() || accounts[1].owner == spl_token_2022_id(),
        ({
            let f = if accounts[1].owner == spl_token_id() {
                readings.token
            } else {
                readings.token_2022
            };
            &&& f is Some
            &&& f.unwrap().is_initialized
            &&& f.unwrap().mint_authority is Some
            &&& f.unwrap().mint_authority.unwrap()@ == accounts[2].address
            &&& create_spec(program_id, accounts, data, readings).unwrap().token_kind == if f.unwrap().decimals
                == 0 {
                1u8
            } else {
                0u8
            }
        }),
        accounts[2].is_signer,
        accounts[3].is_signer,
        accounts[3].is_writable,
        accounts[0].is_writable,
        accounts[4].address == system_program_id(),
        accounts[0].address == metadata_address(
            accounts[1].address,
            parse_create_args(data).bump,
            program_id,
        ),
        accounts[1].owner == spl_token_2022_id() ==> metadata_pointer_spec(accounts[1].data) is Ok
            && (metadata_pointer_spec(accounts[1].data).unwrap() is Some ==> metadata_pointer_spec(
            accounts[1].data,
        ).unwrap().unwrap() == accounts[0].address),
{
}

/// The 33 bytes of a payload creator: address, then share.
pub open spec fn input_bytes(c: CreatorInputView) -> Seq<u8> {
    c.address + seq![c.share]
}

/// The concatenated encodings of payload creators.
pub open spec fn inputs_bytes(cs: Seq<CreatorInputView>) -> Seq<u8>
    decreases cs.len(),
{
    if cs.len() == 0 {
        Seq::empty()
    } else {
        inputs_bytes(cs.drop_last()) + input_bytes(cs.last())
    }
}

/// The content payload laid out field after field, with no padding: royalty, name length,
/// name buffer, symbol length, symbol buffer, uri length, uri buffer, creator count, creator
/// slots.
pub open spec fn content_bytes(a: ContentView) -> Seq<u8> {
    a.royalty_bps + seq![a.name_len] + a.name + seq![a.symbol_len] + a.symbol + seq![a.uri_len]
        + a.uri + seq![a.creator_count] + inputs_bytes(a.creators)
}

proof fn lemma_inputs_bytes_of_parsed(b: Seq<u8>, n: int)
    requires
        0 <= n <= 5,
        b.len() == 413,
    ensures
        inputs_bytes(parse_content(b).creators.subrange(0, n)) == b.subrange(248, 248 + 33 * n),
    decreases n,
{
    let cs = parse_content(b).creators.subrange(0, n);
    if n == 0 {
        assert(inputs_bytes(cs) =~= b.subrange(248, 248));
    } else {
        lemma_inputs_bytes_of_parsed(b, n - 1);
        assert(cs.drop_last() =~= parse_content(b).creators.subrange(0, n - 1));
        assert(input_bytes(cs.last()) =~= b.subrange(248 + 33 * (n - 1), 248 + 33 * n));
        assert(inputs_bytes(cs) =~= b.subrange(248, 248 + 33 * n));
    }
}

/// The payloads are read with the layout of their fields one after the other, with no
/// padding and nothing skipped: laying out the fields that were read gives back the bytes,
/// for the content payload (413 bytes), the creation payload (bump, initial update
/// authority, content; 446 bytes) and the authority payload (renounce flag, new authority;
/// 33 bytes).
pub proof fn lemma_payload_layouts(content: Seq<u8>, create: Seq<u8>, authority: Seq<u8>)
    requires
        content.len() == 413,
        create.len() == 446,
        authority.len() == 33,
    ensures
        content_bytes(parse_content(content)) == content,
        seq![parse_create_args(create).bump] + parse_create_args(create).initial_update_authority
            + content_bytes(parse_create_args(create).content) == create,
        seq![parse_set_authority_args(authority).renounce] + parse_set_authority_args(
            authority,
        ).new_update_authority == authority,
{
    lemma_inputs_bytes_of_parsed(content, 5);
    assert(parse_content(content).creators.subrange(0, 5) =~= parse_content(content).creators);
    assert(content_bytes(parse_content(content)) =~= content);
    let c = create.subrange(33, 446);
    lemma_inputs_bytes_of_parsed(c, 5);
    assert(parse_content(c).creators.subrange(0, 5) =~= parse_content(c).creators);
    assert(content_bytes(parse_content(c)) =~= c);
    assert(seq![parse_create_args(create).bump] + parse_create_args(create).initial_update_authority
        + content_bytes(parse_create_args(create).content) =~= create);
    assert(seq![parse_set_authority_args(authority).renounce] + parse_set_authority_args(
        authority,
    ).new_update_authority =~= authority);
}

/// A record whose content obeys the content rules: name, symbol and uri fit their buffers and
/// are UTF-8, the royalty is at most 10000 basis points, at most five creators are listed, no
/// two of them share an address, and a non-empty list has shares adding up to exactly 100.
pub open spec fn record_content_valid(m: MetadataView) -> bool {
    &&& m.name_bytes().len() <= 32
    &&& m.symbol_bytes().len() <= 10
    &&& m.uri_bytes().len() <= 200
    &&& vstd::utf8::valid_utf8(m.name_bytes())
    &&& vstd::utf8::valid_utf8(m.symbol_bytes())
    &&& vstd::utf8::valid_utf8(m.uri_bytes())
    &&& m.royalty() <= 10000
    &&& m.creator_list().len() <= 5
    &&& forall|i: int, j: int|
        0 <= i < j < m.creator_list().len() ==> m.creator_list()[i].address
            != m.creator_list()[j].address
    &&& (m.creator_list().len() == 0 || shares_sum(m.creator_list()) == 100)
}

/// An update only ever stores content that obeys the content rules: after a successful
/// update the record reads back with a valid name, symbol, uri and royalty, and a creator
/// list that is empty or has distinct addresses whose shares add up to exactly 100.
pub proof fn lemma_update_stores_valid_content(
    program_id: Seq<u8>,
    accounts: Seq<AccountState>,
    data: Seq<u8>,
    after: Seq<AccountState>,
)
    requires
        update_spec(program_id, accounts, data) == Ok::<Seq<AccountState>, ProgramError>(after),
    ensures
        record_content_valid(parse_metadata(after[0].data)),
{
    lemma_update_then_read(program_id, accounts, data, after);
    let a = parse_content(data);
    lemma_content_rules(
        a.name_bytes(),
        a.symbol_bytes(),
        a.uri_bytes(),
        a.royalty(),
        unverified_entries(a.creator_list()),
    );
}

/// A creation only ever plans content that obeys the content rules.
pub proof fn lemma_create_plans_valid_content(
    program_id: Seq<u8>,
    accounts: Seq<AccountState>,
    data: Seq<u8>,
    readings: MintReadings,
)
    requires
        accounts_wf(accounts),
        create_spec(program_id, accounts, data, readings) is Ok,
    ensures
        record_content_valid(create_spec(program_id, accounts, data, readings).unwrap()),
{
    let rec = create_spec(program_id, accounts, data, readings).unwrap();
    let a = parse_create_args(data).content;
    lemma_created_record_wf(program_id, accounts, data, readings);
    lemma_content_rules(
        a.name_bytes(),
        a.symbol_bytes(),
        a.uri_bytes(),
        a.royalty(),
        unverified_entries(a.creator_list()),
    );
    assert(rec.name_bytes() =~= a.name_bytes());
    assert(rec.symbol_bytes() =~= a.symbol_bytes());
    assert(rec.uri_bytes() =~= a.uri_bytes());
    assert(rec.creator_list() =~= unverified_entries(a.creator_list()));
    let x = a.royalty();
    assert(le_u16(u16_le_bytes(x)[0], u16_le_bytes(x)[1]) == x);
}

/// Creation and update never write a verified creator.
pub proof fn lemma_written_creators_unverified(
    program_id: Seq<u8>,
    accounts: Seq<AccountState>,
    data: Seq<u8>,
    readings: MintReadings,
    after: Seq<AccountState>,
)
    ensures
        update_spec(program_id, accounts, data) == Ok::<Seq<AccountState>, ProgramError>(after)
            ==> forall|i: int|
            0 <= i < parse_metadata(after[0].data).creator_count ==> (#[trigger] parse_metadata(
                after[0].data,
            ).creators[i]).verified == 0,
        create_spec(program_id, accounts, data, readings) is Ok ==> forall|i: int|
            0 <= i < create_spec(program_id, accounts, data, readings).unwrap().creator_count
                ==> (#[trigger] create_spec(program_id, accounts, data, readings).unwrap().creators[i]).verified
                == 0,
{
    if update_spec(program_id, accounts, data) == Ok::<Seq<AccountState>, ProgramError>(after) {
        lemma_update_then_read(program_id, accounts, data, after);
        let r = parse_metadata(after[0].data);
        assert forall|i: int| 0 <= i < r.creator_count implies (#[trigger] r.creators[i]).verified
            == 0 by {
            assert(r.creator_list()[i] == r.creators[i]);
        }
    }
}

/// Closing moves every lamport of the metadata account to the destination and leaves the
/// metadata account closed: no owner, no lamports, no data; nothing else changes.
pub proof fn lemma_close_conserves_lamports(
    program_id: Seq<u8>,
    accounts: Seq<AccountState>,
    after: Seq<AccountState>,
)
    requires
        close_spec(program_id, accounts) == Ok::<Seq<AccountState>, ProgramError>(after),
    ensures
        after[3].lamports + after[0].lamports == accounts[3].lamports + accounts[0].lamports,
        after.len() == 4,
        after[1] == accounts[1],
        after[2] == accounts[2],
        after[3] == (AccountState { lamports: after[3].lamports, ..accounts[3] }),
        after[0] == closed_state(accounts[0]),
        after[0].lamports == 0,
        after[0].data.len() == 0,
        load_error(after[0], program_id) is Some,
{
}


/// The lengths and count of a record are within their capacities.
pub open spec fn record_in_range(m: MetadataView) -> bool {
    &&& m.name_len <= MAX_NAME_LEN
    &&& m.symbol_len <= MAX_SYMBOL_LEN
    &&& m.uri_len <= MAX_URI_LEN
    &&& m.creator_count <= MAX_CREATORS
}

proof fn lemma_created_record_wf(program_id: Seq<u8>, accounts: Seq<AccountState>, data: Seq<u8>, readings: MintReadings)
    requires
        accounts_wf(accounts),
        create_spec(program_id, accounts, data, readings) is Ok,
    ensures
        create_spec(program_id, accounts, data, readings).unwrap().wf(),
        record_in_range(create_spec(program_id, accounts, data, readings).unwrap()),
{
    let rec = create_spec(program_id, accounts, data, readings).unwrap();
    let a = parse_create_args(data).content;
    assert(accounts[1].address.len() == 32);
    assert forall|i: int| 0 <= i < 5 implies (#[trigger] rec.creators[i]).address.len() == 32 by {
        if i < a.creator_count {
            assert(a.creator_list()[i] == a.creators[i]);
        }
    }
}

/// What a creation writes is what a read gives back: once the planned record has been
/// written into the new account, that account reads as initialized metadata holding exactly
/// the planned record, which is mutable, belongs to the mint, has the requested update
/// authority and bump, and the token kind of the mint's decimals.
pub proof fn lemma_create_then_read(
    program_id: Seq<u8>,
    accounts: Seq<AccountState>,
    data: Seq<u8>,
    readings: MintReadings,
    created: Seq<AccountState>,
    after: Seq<AccountState>,
)
    requires
        accounts_wf(accounts),
        create_spec(program_id, accounts, data, readings) is Ok,
        finish_create_spec(
            program_id,
            created,
            create_spec(program_id, accounts, data, readings).unwrap(),
        ) == Ok::<Seq<AccountState>, ProgramError>(after),
    ensures
        load_error(after[0], program_id) is None,
        parse_metadata(after[0].data) == create_spec(program_id, accounts, data, readings).unwrap(),
        parse_metadata(after[0].data).mutable(),
        parse_metadata(after[0].data).mint == accounts[1].address,
        parse_metadata(after[0].data).update_authority == parse_create_args(
            data,
        ).initial_update_authority,
        parse_metadata(after[0].data).bump == parse_create_args(data).bump,
        parse_metadata(after[0].data).token_kind == TokenKind::spec_from_decimals(
            crate::checks::read_mint_spec(accounts[1], readings).unwrap().decimals,
        ).spec_as_u8(),
{
    let rec = create_spec(program_id, accounts, data, readings).unwrap();
    lemma_created_record_wf(program_id, accounts, data, readings);
    lemma_stored_record_loads(program_id, created[0], rec);
}

/// Every record the program writes keeps its lengths and creator count within capacity, so
/// no stored record can make a later instruction index past a buffer: creation writes such
/// a record, and every other instruction keeps such a record so (or closes the account).
pub proof fn lemma_records_stay_in_range(
    program_id: Seq<u8>,
    accounts: Seq<AccountState>,
    ix: TokenMetadataInstruction,
    payload: Seq<u8>,
    readings: MintReadings,
    after: Seq<AccountState>,
)
    requires
        accounts_wf(accounts),
    ensures
        create_spec(program_id, accounts, payload, readings) is Ok ==> record_in_range(
            create_spec(program_id, accounts, payload, readings).unwrap(),
        ),
        ix != TokenMetadataInstruction::CreateMetadata && instruction_spec(
            program_id,
            accounts,
            ix,
            payload,
            readings,
        ) == Ok::<Seq<AccountState>, ProgramError>(after) && record_in_range(
            parse_metadata(accounts[0].data),
        ) && load_error(after[0], program_id) is None ==> record_in_range(
            parse_metadata(after[0].data),
        ),
{
    if create_spec(program_id, accounts, payload, readings) is Ok {
        lemma_created_record_wf(program_id, accounts, payload, readings);
    }
    if ix != TokenMetadataInstruction::CreateMetadata && instruction_spec(
        program_id,
        accounts,
        ix,
        payload,
        readings,
    ) == Ok::<Seq<AccountState>, ProgramError>(after) && record_in_range(
        parse_metadata(accounts[0].data),
    ) && load_error(after[0], program_id) is None {
        lemma_loaded_record(program_id, accounts[0]);
        let m = parse_metadata(accounts[0].data);
        match ix {
            TokenMetadataInstruction::UpdateMetadata => {
                lemma_update_then_read(program_id, accounts, payload, after);
                let a = parse_content(payload);
                let v = crate::processor::with_content(m, a);
                assert(after[0].data == metadata_bytes(v));
                assert forall|i: int| 0 <= i < 5 implies (#[trigger] v.creators[i]).address.len()
                    == 32 by {
                    if i < a.creator_count {
                        assert(a.creator_list()[i] == a.creators[i]);
                    }
                }
                lemma_parse_metadata_bytes(v);
            },
            TokenMetadataInstruction::SetUpdateAuthority => {
                let args = parse_set_authority_args(payload);
                let new_authority = if args.renounce != 0 {
                    zeros(32)
                } else {
                    args.new_update_authority
                };
                lemma_parse_metadata_bytes(MetadataView { update_authority: new_authority, ..m });
            },
            TokenMetadataInstruction::SetImmutable => {
                lemma_parse_metadata_bytes(MetadataView { is_mutable: 0, ..m });
            },
            TokenMetadataInstruction::VerifyCreator => {
                lemma_only_creator_changes_verification(program_id, accounts, true, after);
            },
            TokenMetadataInstruction::UnverifyCreator => {
                lemma_only_creator_changes_verification(program_id, accounts, false, after);
            },
            _ => {},
        }
    }
}


/// Instruction data made of an instruction's discriminator followed by a payload runs that
/// instruction's handler on that payload.
pub proof fn lemma_dispatch_runs_the_named_handler(
    program_id: Seq<u8>,
    accounts: Seq<AccountState>,
    ix: TokenMetadataInstruction,
    payload: Seq<u8>,
    readings: MintReadings,
)
    ensures
        process_instruction_spec(program_id, accounts, discriminator_of(ix) + payload, readings)
            == instruction_spec(program_id, accounts, ix, payload, readings),
{
    lemma_discriminator_roundtrip(ix);
    let data = discriminator_of(ix) + payload;
    assert(data.subrange(0, 8) =~= discriminator_of(ix));
    assert(data.subrange(8, data.len() as int) =~= payload);
}

} // verus!
