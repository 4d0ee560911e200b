//! Account and content checks shared by the instruction handlers.
use vstd::prelude::*;

use crate::account::{AccountState, AccountView};
use crate::address::{lemma_address_len, Address};
use crate::error::{custom_error, ProgramError, TokenMetadataError};
use crate::laws::{lemma_content_rules, shares_sum};
use crate::programs::{spl_token_2022_id, spl_token_2022_id_bytes, spl_token_id, spl_token_id_bytes};
use crate::state::metadata::{CreatorEntryView, MetadataView};
use crate::state::{
    CreatorEntry, TokenMetadata, MAX_CREATORS, MAX_CREATOR_SHARE_TOTAL, MAX_NAME_LEN,
    MAX_ROYALTY_BASIS_POINTS, MAX_SYMBOL_LEN, MAX_URI_LEN,
};

verus! {

broadcast use lemma_address_len;

/// Which token program owns a validated mint.
#[derive(Clone, Copy, Debug, PartialEq, Eq, Structural)]
pub enum TokenProgramKind {
    Token,
    Token2022,
}

/// The mint fields that a token program's own mint reader
/// (`pinocchio_token::state::Mint` or `pinocchio_token_2022::state::Mint`) finds in an
/// account it accepts.
#[derive(Clone, Copy, Debug)]
pub struct MintFields {
    pub mint_authority: Option<Address>,
    pub decimals: u8,
    pub is_initialized: bool,
}

/// What each token program's mint reader makes of the mint account: `None` where that reader
/// rejects the account (wrong owner or layout), else the fields it reads.
#[derive(Clone, Copy, Debug)]
pub struct MintReadings {
    pub token: Option<MintFields>,
    pub token_2022: Option<MintFields>,
}

/// The subset of mint fields relevant to metadata creation.
#[derive(Clone, Copy, Debug)]
pub struct MintInfo {
    pub mint_authority: Option<Address>,
    pub decimals: u8,
    pub program: TokenProgramKind,
}

/// The mint fields relevant to metadata creation, as seen by specifications.
pub struct MintInfoView {
    pub mint_authority: Option<Seq<u8>>,
    pub decimals: u8,
    pub program: TokenProgramKind,
}

/// The view of an optional address.
pub open spec fn opt_address_view(a: Option<Address>) -> Option<Seq<u8>> {
    match a {
        Some(a) => Some(a@),
        None => None,
    }
}

impl View for MintInfo {
    type V = MintInfoView;

    open spec fn view(&self) -> MintInfoView {
        MintInfoView {
            mint_authority: opt_address_view(self.mint_authority),
            decimals: self.decimals,
            program: self.program,
        }
    }
}

/// The mint information `read_mint` gives for the reading of one token program.
pub open spec fn mint_info_from(reading: Option<MintFields>, program: TokenProgramKind) -> Result<
    MintInfoView,
    ProgramError,
> {
    match reading {
        Some(f) => if f.is_initialized {
            Ok(
                MintInfoView {
                    mint_authority: opt_address_view(f.mint_authority),
                    decimals: f.decimals,
                    program,
                },
            )
        } else {
            Err(custom_error(TokenMetadataError::InvalidMint))
        },
        None => Err(custom_error(TokenMetadataError::InvalidMint)),
    }
}

/// What `read_mint` gives for a mint account with the given owner and readings.
pub open spec fn read_mint_spec(mint: AccountState, readings: MintReadings) -> Result<
    MintInfoView,
    ProgramError,
> {
    if mint.owner == spl_token_id() {
        mint_info_from(readings.token, TokenProgramKind::Token)
    } else if mint.owner == spl_token_2022_id() {
        mint_info_from(readings.token_2022, TokenProgramKind::Token2022)
    } else {
        Err(custom_error(TokenMetadataError::IncorrectMintOwner))
    }
}

fn mint_info(reading: Option<MintFields>, program: TokenProgramKind) -> (r: Result<MintInfo, ProgramError>)
    ensures
        match mint_info_from(reading, program) {
            Ok(v) => r.is_ok() && r.unwrap()@ == v,
            Err(e) => r == Err::<MintInfo, ProgramError>(e),
        },
{
    match reading {
        Some(f) => {
            if !f.is_initialized {
                return Err(ProgramError::from(TokenMetadataError::InvalidMint));
            }
            Ok(MintInfo { mint_authority: f.mint_authority, decimals: f.decimals, program })
        },
        None => Err(ProgramError::from(TokenMetadataError::InvalidMint)),
    }
}

/// Validates that `mint_account` is owned by either the SPL Token or the Token-2022 program
/// and that this program's mint reader accepts it as an initialized mint, and returns its
/// authority, decimals and program kind.
///
/// Every instruction that touches a mint relies on this check: it alone decides whether an
/// account is treated as a legitimate mint at all.
pub fn read_mint(mint_account: &AccountView, readings: &MintReadings) -> (r: Result<MintInfo, ProgramError>)
    ensures
        match read_mint_spec(mint_account@, *readings) {
            Ok(v) => r.is_ok() && r.unwrap()@ == v,
            Err(e) => r == Err::<MintInfo, ProgramError>(e),
        },
{
    let token_id = Address::new_from_array(spl_token_id_bytes());
    let token_2022_id = Address::new_from_array(spl_token_2022_id_bytes());
    if mint_account.owner() == token_id {
        mint_info(readings.token, TokenProgramKind::Token)
    } else if mint_account.owner() == token_2022_id {
        mint_info(readings.token_2022, TokenProgramKind::Token2022)
    } else {
        Err(ProgramError::from(TokenMetadataError::IncorrectMintOwner))
    }
}

/// Requires `account` to be a transaction signer.
pub fn assert_signer(account: &AccountView) -> (r: Result<(), ProgramError>)
    ensures
        r == if account.is_signer {
            Ok::<(), ProgramError>(())
        } else {
            Err(custom_error(TokenMetadataError::MissingRequiredSignature))
        },
{
    if !account.is_signer() {
        return Err(ProgramError::from(TokenMetadataError::MissingRequiredSignature));
    }
    Ok(())
}

/// Requires `account` to be writable.
pub fn assert_writable(account: &AccountView) -> (r: Result<(), ProgramError>)
    ensures
        r == if account.is_writable {
            Ok::<(), ProgramError>(())
        } else {
            Err(ProgramError::InvalidAccountData)
        },
{
    if !account.is_writable() {
        return Err(ProgramError::InvalidAccountData);
    }
    Ok(())
}

/// Requires `account`'s address to equal `expected`.
pub fn assert_address(account: &AccountView, expected: &Address) -> (r: Result<(), ProgramError>)
    ensures
        r == if account.address@ == expected@ {
            Ok::<(), ProgramError>(())
        } else {
            Err(custom_error(TokenMetadataError::IncorrectProgramId))
        },
{
    if account.address() != expected {
        return Err(ProgramError::from(TokenMetadataError::IncorrectProgramId));
    }
    Ok(())
}

/// Why `authority` cannot act as the mint authority `mint_authority`, if it cannot.
pub open spec fn mint_authority_error(mint_authority: Option<Seq<u8>>, authority: AccountState) -> Option<
    ProgramError,
> {
    match mint_authority {
        None => Some(custom_error(TokenMetadataError::MintHasNoAuthority)),
        Some(a) => if a != authority.address {
            Some(custom_error(TokenMetadataError::InvalidMintAuthority))
        } else if !authority.is_signer {
            Some(custom_error(TokenMetadataError::MintAuthorityNotSigner))
        } else {
            None
        },
    }
}

/// Requires that `authority_account` is both the mint's recorded mint authority and a signer.
pub fn assert_mint_authority_matches(mint_authority: Option<&Address>, authority_account: &AccountView) -> (r:
    Result<(), ProgramError>)
    ensures
        r == match mint_authority_error(
            match mint_authority {
                Some(a) => Some(a@),
                None => None,
            },
            authority_account@,
        ) {
            Some(e) => Err::<(), ProgramError>(e),
            None => Ok(()),
        },
{
    let mint_authority = match mint_authority {
        Some(a) => a,
        None => {
            return Err(ProgramError::from(TokenMetadataError::MintHasNoAuthority));
        },
    };
    if mint_authority != authority_account.address() {
        return Err(ProgramError::from(TokenMetadataError::InvalidMintAuthority));
    }
    if !authority_account.is_signer() {
        return Err(ProgramError::from(TokenMetadataError::MintAuthorityNotSigner));
    }
    Ok(())
}

/// Why `authority` cannot act as the update authority of `metadata`, if it cannot.
pub open spec fn update_authority_error(metadata: MetadataView, authority: AccountState) -> Option<
    ProgramError,
> {
    if metadata.update_authority != authority.address {
        Some(custom_error(TokenMetadataError::UpdateAuthorityIncorrect))
    } else if !authority.is_signer {
        Some(custom_error(TokenMetadataError::UpdateAuthorityNotSigner))
    } else {
        None
    }
}

/// Requires that `authority_account` is both the metadata's recorded update authority and a
/// signer.
pub fn assert_update_authority_is_correct(metadata: &TokenMetadata, authority_account: &AccountView) -> (r:
    Result<(), ProgramError>)
    ensures
        r == match update_authority_error(metadata@, authority_account@) {
            Some(e) => Err::<(), ProgramError>(e),
            None => Ok(()),
        },
{
    if metadata.update_authority != *authority_account.address() {
        return Err(ProgramError::from(TokenMetadataError::UpdateAuthorityIncorrect));
    }
    if !authority_account.is_signer() {
        return Err(ProgramError::from(TokenMetadataError::UpdateAuthorityNotSigner));
    }
    Ok(())
}

/// Requires that the metadata is still mutable.
pub fn assert_mutable(metadata: &TokenMetadata) -> (r: Result<(), ProgramError>)
    ensures
        r == if metadata@.mutable() {
            Ok::<(), ProgramError>(())
        } else {
            Err(custom_error(TokenMetadataError::DataIsImmutable))
        },
{
    if !metadata.is_mutable() {
        return Err(ProgramError::from(TokenMetadataError::DataIsImmutable));
    }
    Ok(())
}

/// `core::str::from_utf8(bytes).is_ok()`.
///
/// The contract states that the bytes are accepted exactly when they are well-formed UTF-8,
/// as vstd's `valid_utf8` defines it (no overlong encodings, no surrogates, nothing above
/// U+10FFFF), which is what the standard library documents.
#[verifier::external_body]
fn is_utf8(bytes: &[u8]) -> (r: bool)
    ensures
        r == vstd::utf8::valid_utf8(bytes@),
{
    core::str::from_utf8(bytes).is_ok()
}

/// Whether two entries of the list share an address.
pub open spec fn has_duplicate_address(cs: Seq<CreatorEntryView>) -> bool {
    exists|i: int, j: int| 0 <= i < j < cs.len() && #[trigger] cs[i].address == #[trigger] cs[j].address
}

/// The total of the creators' shares.
pub open spec fn share_total(cs: Seq<CreatorEntryView>) -> int
    decreases cs.len(),
{
    if cs.len() == 0 {
        0
    } else {
        share_total(cs.drop_last()) + cs.last().share as int
    }
}

/// The first content rule that the given name, symbol, uri, royalty and creators break, if
/// any: lengths, UTF-8 well-formedness, royalty range, creator count, no duplicate creator
/// addresses and shares summing to exactly 100 (the last two only for a non-empty list).
pub open spec fn content_error(
    name: Seq<u8>,
    symbol: Seq<u8>,
    uri: Seq<u8>,
    royalty_bps: u16,
    creators: Seq<CreatorEntryView>,
) -> Option<TokenMetadataError> {
    if name.len() > MAX_NAME_LEN {
        Some(TokenMetadataError::NameTooLong)
    } else if symbol.len() > MAX_SYMBOL_LEN {
        Some(TokenMetadataError::SymbolTooLong)
    } else if uri.len() > MAX_URI_LEN {
        Some(TokenMetadataError::UriTooLong)
    } else if !vstd::utf8::valid_utf8(name) || !vstd::utf8::valid_utf8(symbol)
        || !vstd::utf8::valid_utf8(uri) {
        Some(TokenMetadataError::InvalidInstructionData)
    } else if royalty_bps > MAX_ROYALTY_BASIS_POINTS {
        Some(TokenMetadataError::InvalidRoyaltyBasisPoints)
    } else if creators.len() > MAX_CREATORS {
        Some(TokenMetadataError::TooManyCreators)
    } else if creators.len() > 0 && has_duplicate_address(creators) {
        Some(TokenMetadataError::DuplicateCreatorAddress)
    } else if creators.len() > 0 && share_total(creators) != MAX_CREATOR_SHARE_TOTAL {
        Some(TokenMetadataError::CreatorSharesMustSumTo100)
    } else {
        None
    }
}

/// The views of a list of creator entries.
pub open spec fn entry_views(cs: Seq<CreatorEntry>) -> Seq<CreatorEntryView> {
    cs.map_values(|c: CreatorEntry| c@)
}

/// Validates `name`/`symbol`/`uri` length and UTF-8 well-formedness, the royalty range, and
/// the creators list (count, no duplicate addresses, shares summing to exactly 100 when
/// non-empty). `verified` is not part of the check.
#[verifier::loop_isolation(false)]
pub fn validate_metadata_content(
    name: &[u8],
    symbol: &[u8],
    uri: &[u8],
    royalty_bps: u16,
    creators: &[CreatorEntry],
) -> (r: Result<(), ProgramError>)
    ensures
        r == match content_error(name@, symbol@, uri@, royalty_bps, entry_views(creators@)) {
            Some(e) => Err::<(), ProgramError>(custom_error(e)),
            None => Ok(()),
        },
        r is Ok <==> {
            &&& name@.len() <= 32
            &&& symbol@.len() <= 10
            &&& uri@.len() <= 200
            &&& vstd::utf8::valid_utf8(name@)
            &&& vstd::utf8::valid_utf8(symbol@)
            &&& vstd::utf8::valid_utf8(uri@)
            &&& royalty_bps <= 10000
            &&& creators@.len() <= 5
            &&& forall|i: int, j: int|
                0 <= i < j < creators@.len() ==> creators@[i].address@ != creators@[j].address@
            &&& (creators@.len() == 0 || shares_sum(entry_views(creators@)) == 100)
        },
        name@.len() <= 32 && symbol@.len() <= 10 && uri@.len() <= 200 && vstd::utf8::valid_utf8(
            name@,
        ) && vstd::utf8::valid_utf8(symbol@) && vstd::utf8::valid_utf8(uri@) && royalty_bps
            <= 10000 && creators@.len() <= 5 && (exists|i: int, j: int|
            0 <= i < j < creators@.len() && creators@[i].address@ == creators@[j].address@) ==> r
            == Err::<(), ProgramError>(custom_error(TokenMetadataError::DuplicateCreatorAddress)),
        name@.len() <= 32 && symbol@.len() <= 10 && uri@.len() <= 200 && vstd::utf8::valid_utf8(
            name@,
        ) && vstd::utf8::valid_utf8(symbol@) && vstd::utf8::valid_utf8(uri@) && royalty_bps
            <= 10000 && 0 < creators@.len() <= 5 && (forall|i: int, j: int|
            0 <= i < j < creators@.len() ==> creators@[i].address@ != creators@[j].address@)
            && shares_sum(entry_views(creators@)) != 100 ==> r == Err::<(), ProgramError>(
            custom_error(TokenMetadataError::CreatorSharesMustSumTo100),
        ),
{
    proof {
        let cs = entry_views(creators@);
        lemma_content_rules(name@, symbol@, uri@, royalty_bps, cs);
        assert forall|i: int| 0 <= i < creators@.len() implies #[trigger] cs[i] == creators@[i]@ by {}
        if exists|i: int, j: int|
            0 <= i < j < creators@.len() && creators@[i].address@ == creators@[j].address@ {
            let (i, j) = choose|i: int, j: int|
                0 <= i < j < creators@.len() && creators@[i].address@ == creators@[j].address@;
            assert(cs[i].address == cs[j].address);
        }
    }
    if name.len() > MAX_NAME_LEN {
        return Err(ProgramError::from(TokenMetadataError::NameTooLong));
    }
    if symbol.len() > MAX_SYMBOL_LEN {
        return Err(ProgramError::from(TokenMetadataError::SymbolTooLong));
    }
    if uri.len() > MAX_URI_LEN {
        return Err(ProgramError::from(TokenMetadataError::UriTooLong));
    }
    if !is_utf8(name) {
        return Err(ProgramError::from(TokenMetadataError::InvalidInstructionData));
    }
    if !is_utf8(symbol) {
        return Err(ProgramError::from(TokenMetadataError::InvalidInstructionData));
    }
    if !is_utf8(uri) {
        return Err(ProgramError::from(TokenMetadataError::InvalidInstructionData));
    }
    if royalty_bps > MAX_ROYALTY_BASIS_POINTS {
        return Err(ProgramError::from(TokenMetadataError::InvalidRoyaltyBasisPoints));
    }
    let n = creators.len();
    if n > MAX_CREATORS {
        return Err(ProgramError::from(TokenMetadataError::TooManyCreators));
    }
    let ghost cs = entry_views(creators@);
    if n != 0 {
        let mut i: usize = 0;
        while i < n
            invariant
                n == creators@.len(),
                n <= MAX_CREATORS,
                cs == entry_views(creators@),
                i <= n,
                forall|a: int, b: int| 0 <= a < i && a < b < n ==> cs[a].address != cs[b].address,
            decreases n - i,
        {
            let mut j: usize = i + 1;
            while j < n
                invariant
                    n == creators@.len(),
                    cs == entry_views(creators@),
                    i < n,
                    i + 1 <= j <= n,
                    forall|a: int, b: int| 0 <= a < i && a < b < n ==> cs[a].address != cs[b].address,
                    forall|b: int| i < b < j ==> cs[i as int].address != cs[b].address,
                decreases n - j,
            {
                if creators[i].address == creators[j].address {
                    assert(cs[i as int].address == cs[j as int].address);
                    assert(has_duplicate_address(cs));
                    return Err(ProgramError::from(TokenMetadataError::DuplicateCreatorAddress));
                }
                j = j + 1;
            }
            i = i + 1;
        }
        assert(!has_duplicate_address(cs));
        let mut share_sum: u16 = 0;
        let mut k: usize = 0;
        while k < n
            invariant
                n == creators@.len(),
                n <= MAX_CREATORS,
                cs == entry_views(creators@),
                k <= n,
                share_sum as int == share_total(cs.subrange(0, k as int)),
                share_sum <= 255 * k,
            decreases n - k,
        {
            assert(cs.subrange(0, k + 1).drop_last() =~= cs.subrange(0, k as int));
            share_sum = match share_sum.checked_add(creators[k].share as u16) {
                Some(v) => v,
                None => {
                    return Err(ProgramError::from(TokenMetadataError::NumericalOverflow));
                },
            };
            k = k + 1;
        }
        assert(cs.subrange(0, n as int) =~= cs);
        if share_sum != MAX_CREATOR_SHARE_TOTAL {
            return Err(ProgramError::from(TokenMetadataError::CreatorSharesMustSumTo100));
        }
    }
    Ok(())
}

} // verus!
