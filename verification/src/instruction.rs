//! Instruction decoding: discriminators and the fixed-layout argument payloads.
use vstd::prelude::*;

use crate::address::{lemma_address_len, Address};
use crate::bytes::{copy_into, le_u16, u16_from_le};
use crate::error::{custom_error, ProgramError, TokenMetadataError};
use crate::state::{MAX_CREATORS, MAX_NAME_LEN, MAX_SYMBOL_LEN, MAX_URI_LEN};

pub mod discriminator;

verus! {

broadcast use vstd::array::group_array_axioms, lemma_address_len;

/// The instructions this program understands.
#[derive(Clone, Copy, Debug, PartialEq, Eq, Structural)]
pub enum TokenMetadataInstruction {
    /// Attach metadata to an existing, initialized mint. Accounts: metadata (writable),
    /// mint, mint authority (signer), payer (signer, writable), system program.
    CreateMetadata,
    /// Replace name/symbol/uri/royalty/creators on existing, mutable metadata. Accounts:
    /// metadata (writable), mint, update authority (signer).
    UpdateMetadata,
    /// Transfer or renounce the update authority. Accounts: metadata (writable), current
    /// update authority (signer).
    SetUpdateAuthority,
    /// One-way flip of `is_mutable` from true to false. Accounts: metadata (writable), update
    /// authority (signer).
    SetImmutable,
    /// A listed creator signs to set their own `verified` flag. Accounts: metadata (writable),
    /// creator (signer).
    VerifyCreator,
    /// A listed creator signs to clear their own `verified` flag. Accounts: metadata
    /// (writable), creator (signer).
    UnverifyCreator,
    /// Close the metadata account and reclaim its rent, only while mutable. Accounts:
    /// metadata (writable), mint, update authority (signer), destination (writable).
    CloseMetadata,
}

/// The 8-byte discriminator of each instruction.
pub open spec fn discriminator_of(ix: TokenMetadataInstruction) -> Seq<u8> {
    match ix {
        TokenMetadataInstruction::CreateMetadata => discriminator::CREATE_METADATA@,
        TokenMetadataInstruction::UpdateMetadata => discriminator::UPDATE_METADATA@,
        TokenMetadataInstruction::SetUpdateAuthority => discriminator::SET_UPDATE_AUTHORITY@,
        TokenMetadataInstruction::SetImmutable => discriminator::SET_IMMUTABLE@,
        TokenMetadataInstruction::VerifyCreator => discriminator::VERIFY_CREATOR@,
        TokenMetadataInstruction::UnverifyCreator => discriminator::UNVERIFY_CREATOR@,
        TokenMetadataInstruction::CloseMetadata => discriminator::CLOSE_METADATA@,
    }
}

/// The instruction whose discriminator is `tag`, if any.
pub open spec fn instruction_for_tag(tag: Seq<u8>) -> Option<TokenMetadataInstruction> {
    if tag == discriminator::CREATE_METADATA@ {
        Some(TokenMetadataInstruction::CreateMetadata)
    } else if tag == discriminator::UPDATE_METADATA@ {
        Some(TokenMetadataInstruction::UpdateMetadata)
    } else if tag == discriminator::SET_UPDATE_AUTHORITY@ {
        Some(TokenMetadataInstruction::SetUpdateAuthority)
    } else if tag == discriminator::SET_IMMUTABLE@ {
        Some(TokenMetadataInstruction::SetImmutable)
    } else if tag == discriminator::VERIFY_CREATOR@ {
        Some(TokenMetadataInstruction::VerifyCreator)
    } else if tag == discriminator::UNVERIFY_CREATOR@ {
        Some(TokenMetadataInstruction::UnverifyCreator)
    } else if tag == discriminator::CLOSE_METADATA@ {
        Some(TokenMetadataInstruction::CloseMetadata)
    } else {
        None
    }
}

/// Decoding a discriminator gives back the instruction it belongs to: the seven
/// discriminators are pairwise distinct.
pub proof fn lemma_discriminator_roundtrip(ix: TokenMetadataInstruction)
    ensures
        instruction_for_tag(discriminator_of(ix)) == Some(ix),
{
    let c = discriminator::CREATE_METADATA@;
    let u = discriminator::UPDATE_METADATA@;
    let a = discriminator::SET_UPDATE_AUTHORITY@;
    let s = discriminator::SET_IMMUTABLE@;
    let v = discriminator::VERIFY_CREATOR@;
    let n = discriminator::UNVERIFY_CREATOR@;
    let x = discriminator::CLOSE_METADATA@;
    assert(c[0] == 0x1e && u[0] == 0xaa && a[0] == 0xa6 && s[0] == 0x87);
    assert(v[0] == 0x34 && n[0] == 0x6b && x[0] == 0x0a);
}

fn tag_eq(a: &[u8; 8], b: &[u8; 8]) -> (r: bool)
    ensures
        r == (a@ == b@),
{
    let mut i: usize = 0;
    while i < 8
        invariant
            i <= 8,
            forall|j: int| 0 <= j < i ==> a@[j] == b@[j],
        decreases 8 - i,
    {
        if a[i] != b[i] {
            return false;
        }
        i = i + 1;
    }
    assert(a@ =~= b@);
    true
}

impl TokenMetadataInstruction {
    /// Decodes an 8-byte discriminator.
    pub fn try_from_discriminator(tag: &[u8; 8]) -> (r: Result<Self, ProgramError>)
        ensures
            match instruction_for_tag(tag@) {
                Some(ix) => r == Ok::<Self, ProgramError>(ix),
                None => r == Err::<Self, ProgramError>(
                    custom_error(TokenMetadataError::UnknownInstruction),
                ),
            },
    {
        if tag_eq(tag, &discriminator::CREATE_METADATA) {
            Ok(Self::CreateMetadata)
        } else if tag_eq(tag, &discriminator::UPDATE_METADATA) {
            Ok(Self::UpdateMetadata)
        } else if tag_eq(tag, &discriminator::SET_UPDATE_AUTHORITY) {
            Ok(Self::SetUpdateAuthority)
        } else if tag_eq(tag, &discriminator::SET_IMMUTABLE) {
            Ok(Self::SetImmutable)
        } else if tag_eq(tag, &discriminator::VERIFY_CREATOR) {
            Ok(Self::VerifyCreator)
        } else if tag_eq(tag, &discriminator::UNVERIFY_CREATOR) {
            Ok(Self::UnverifyCreator)
        } else if tag_eq(tag, &discriminator::CLOSE_METADATA) {
            Ok(Self::CloseMetadata)
        } else {
            Err(ProgramError::from(TokenMetadataError::UnknownInstruction))
        }
    }
}

/// What `split_discriminator` gives for `data`: the instruction named by its first 8 bytes
/// and the payload after them.
pub open spec fn split_spec(data: Seq<u8>) -> Result<
    (TokenMetadataInstruction, Seq<u8>),
    ProgramError,
> {
    if data.len() < 8 {
        Err(custom_error(TokenMetadataError::InvalidInstructionData))
    } else {
        match instruction_for_tag(data.subrange(0, 8)) {
            Some(ix) => Ok((ix, data.subrange(8, data.len() as int))),
            None => Err(custom_error(TokenMetadataError::UnknownInstruction)),
        }
    }
}

/// Split raw instruction data into its 8-byte discriminator and the remaining payload.
pub fn split_discriminator(data: &[u8]) -> (r: Result<(TokenMetadataInstruction, &[u8]), ProgramError>)
    ensures
        match split_spec(data@) {
            Ok((ix, rest)) => r.is_ok() && r.unwrap().0 == ix && r.unwrap().1@ == rest,
            Err(e) => r == Err::<(TokenMetadataInstruction, &[u8]), ProgramError>(e),
        },
{
    if data.len() < 8 {
        return Err(ProgramError::from(TokenMetadataError::InvalidInstructionData));
    }
    let mut tag = [0u8; 8];
    copy_into(&mut tag, data, 0);
    let rest = &data[8..data.len()];
    match TokenMetadataInstruction::try_from_discriminator(&tag) {
        Ok(ix) => Ok((ix, rest)),
        Err(e) => Err(e),
    }
}


/// Reads the 32-byte address at `off`.
pub(crate) fn read_address(data: &[u8], off: usize) -> (r: Address)
    requires
        off + 32 <= data@.len(),
    ensures
        r@ == data@.subrange(off as int, off + 32),
{
    let mut b = [0u8; 32];
    copy_into(&mut b, data, off);
    Address::new_from_array(b)
}

/// A creator as the instruction data spells it: an address and its share.
pub struct CreatorInputView {
    pub address: Seq<u8>,
    pub share: u8,
}

/// A single creator supplied in instruction data: an address and its attribution share.
/// There is no `verified` field: creators are always written as unverified by
/// `CreateMetadata`/`UpdateMetadata`.
#[derive(Clone, Copy, Debug)]
pub struct CreatorInput {
    pub address: Address,
    pub share: u8,
}

impl View for CreatorInput {
    type V = CreatorInputView;

    open spec fn view(&self) -> CreatorInputView {
        CreatorInputView { address: self.address@, share: self.share }
    }
}

/// The content payload of `CreateMetadata` and `UpdateMetadata`, field by field.
pub struct ContentView {
    pub royalty_bps: Seq<u8>,
    pub name_len: u8,
    pub name: Seq<u8>,
    pub symbol_len: u8,
    pub symbol: Seq<u8>,
    pub uri_len: u8,
    pub uri: Seq<u8>,
    pub creator_count: u8,
    pub creators: Seq<CreatorInputView>,
}

impl ContentView {
    /// The royalty in basis points.
    pub open spec fn royalty(self) -> u16 {
        le_u16(self.royalty_bps[0], self.royalty_bps[1])
    }

    /// The length check of `validate_lengths`: the first length out of range, if any.
    pub open spec fn length_error(self) -> Option<TokenMetadataError> {
        if self.name_len > MAX_NAME_LEN {
            Some(TokenMetadataError::NameTooLong)
        } else if self.symbol_len > MAX_SYMBOL_LEN {
            Some(TokenMetadataError::SymbolTooLong)
        } else if self.uri_len > MAX_URI_LEN {
            Some(TokenMetadataError::UriTooLong)
        } else {
            None
        }
    }

    /// The name: the first `name_len` bytes of its buffer.
    pub open spec fn name_bytes(self) -> Seq<u8> {
        self.name.subrange(0, self.name_len as int)
    }

    /// The symbol: the first `symbol_len` bytes of its buffer.
    pub open spec fn symbol_bytes(self) -> Seq<u8> {
        self.symbol.subrange(0, self.symbol_len as int)
    }

    /// The uri: the first `uri_len` bytes of its buffer.
    pub open spec fn uri_bytes(self) -> Seq<u8> {
        self.uri.subrange(0, self.uri_len as int)
    }

    /// The listed creators: the first `creator_count` entries.
    pub open spec fn creator_list(self) -> Seq<CreatorInputView> {
        self.creators.subrange(0, self.creator_count as int)
    }
}

/// Encoded length of [`MetadataContentArgs`].
pub open spec fn content_len() -> nat {
    413
}

/// Offset of creator `i` inside the content payload.
pub open spec fn content_creator_offset(i: int) -> int {
    248 + 33 * i
}

/// The content payload encoded by the 413 bytes `b`: royalty (2 bytes, little-endian),
/// name length and 32-byte name buffer, symbol length and 10-byte buffer, uri length and
/// 200-byte buffer, creator count and five 33-byte creator slots (address, share).
pub open spec fn parse_content(b: Seq<u8>) -> ContentView {
    ContentView {
        royalty_bps: b.subrange(0, 2),
        name_len: b[2],
        name: b.subrange(3, 35),
        symbol_len: b[35],
        symbol: b.subrange(36, 46),
        uri_len: b[46],
        uri: b.subrange(47, 247),
        creator_count: b[247],
        creators: Seq::new(
            5,
            |i: int|
                CreatorInputView {
                    address: b.subrange(content_creator_offset(i), content_creator_offset(i) + 32),
                    share: b[content_creator_offset(i) + 32],
                },
        ),
    }
}

/// Shared, fixed-layout content payload for `CreateMetadata` and `UpdateMetadata`.
#[derive(Clone, Copy, Debug)]
pub struct MetadataContentArgs {
    pub royalty_bps: [u8; 2],
    pub name_len: u8,
    pub name: [u8; MAX_NAME_LEN],
    pub symbol_len: u8,
    pub symbol: [u8; MAX_SYMBOL_LEN],
    pub uri_len: u8,
    pub uri: [u8; MAX_URI_LEN],
    pub creator_count: u8,
    pub creators: [CreatorInput; MAX_CREATORS],
}

impl View for MetadataContentArgs {
    type V = ContentView;

    open spec fn view(&self) -> ContentView {
        ContentView {
            royalty_bps: self.royalty_bps@,
            name_len: self.name_len,
            name: self.name@,
            symbol_len: self.symbol_len,
            symbol: self.symbol@,
            uri_len: self.uri_len,
            uri: self.uri@,
            creator_count: self.creator_count,
            creators: self.creators@.map_values(|c: CreatorInput| c@),
        }
    }
}

impl MetadataContentArgs {
    /// Encoded length of the payload.
    pub const LEN: usize = 413;

    /// The royalty in basis points.
    pub fn royalty_bps(&self) -> (r: u16)
        ensures
            r == self@.royalty(),
    {
        u16_from_le(self.royalty_bps)
    }

    /// The name bytes.
    pub fn name(&self) -> (r: &[u8])
        requires
            self.name_len <= MAX_NAME_LEN,
        ensures
            r@ == self@.name_bytes(),
    {
        &self.name[0..self.name_len as usize]
    }

    /// The symbol bytes.
    pub fn symbol(&self) -> (r: &[u8])
        requires
            self.symbol_len <= MAX_SYMBOL_LEN,
        ensures
            r@ == self@.symbol_bytes(),
    {
        &self.symbol[0..self.symbol_len as usize]
    }

    /// The uri bytes.
    pub fn uri(&self) -> (r: &[u8])
        requires
            self.uri_len <= MAX_URI_LEN,
        ensures
            r@ == self@.uri_bytes(),
    {
        &self.uri[0..self.uri_len as usize]
    }

    /// The listed creators; fails when the count exceeds the capacity.
    pub fn creators(&self) -> (r: Result<&[CreatorInput], ProgramError>)
        ensures
            self.creator_count > MAX_CREATORS ==> r == Err::<&[CreatorInput], ProgramError>(
                custom_error(TokenMetadataError::TooManyCreators),
            ),
            self.creator_count <= MAX_CREATORS ==> r.is_ok() && r.unwrap()@ == self.creators@.subrange(
                0,
                self.creator_count as int,
            ),
    {
        if self.creator_count as usize > MAX_CREATORS {
            return Err(ProgramError::from(TokenMetadataError::TooManyCreators));
        }
        Ok(&self.creators[0..self.creator_count as usize])
    }

    /// Decodes exactly [`Self::LEN`] bytes.
    pub(crate) fn parse(bytes: &[u8]) -> (r: Self)
        requires
            bytes@.len() == content_len(),
        ensures
            r@ == parse_content(bytes@),
    {
        let mut royalty_bps = [0u8; 2];
        copy_into(&mut royalty_bps, bytes, 0);
        let mut name = [0u8; MAX_NAME_LEN];
        copy_into(&mut name, bytes, 3);
        let mut symbol = [0u8; MAX_SYMBOL_LEN];
        copy_into(&mut symbol, bytes, 36);
        let mut uri = [0u8; MAX_URI_LEN];
        copy_into(&mut uri, bytes, 47);
        let mut creators = [CreatorInput { address: Address::default(), share: 0 }; MAX_CREATORS];
        let mut i: usize = 0;
        while i < MAX_CREATORS
            invariant
                i <= MAX_CREATORS,
                bytes@.len() == content_len(),
                creators@.len() == MAX_CREATORS,
                forall|j: int|
                    0 <= j < i ==> #[trigger] creators@[j]@ == parse_content(bytes@).creators[j],
            decreases MAX_CREATORS - i,
        {
            let off = 248 + 33 * i;
            let address = read_address(bytes, off);
            creators[i] = CreatorInput { address, share: bytes[off + 32] };
            i = i + 1;
        }
        let r = MetadataContentArgs {
            royalty_bps,
            name_len: bytes[2],
            name,
            symbol_len: bytes[35],
            symbol,
            uri_len: bytes[46],
            uri,
            creator_count: bytes[247],
            creators,
        };
        assert(r@.creators =~= parse_content(bytes@).creators);
        r
    }

    /// Decodes the payload; the input must be exactly [`Self::LEN`] bytes.
    pub fn from_bytes(bytes: &[u8]) -> (r: Result<Self, ProgramError>)
        ensures
            bytes@.len() != content_len() ==> r == Err::<Self, ProgramError>(
                custom_error(TokenMetadataError::InvalidInstructionData),
            ),
            bytes@.len() == content_len() ==> r.is_ok() && r.unwrap()@ == parse_content(bytes@),
    {
        if bytes.len() != Self::LEN {
            return Err(ProgramError::from(TokenMetadataError::InvalidInstructionData));
        }
        Ok(Self::parse(bytes))
    }

    /// Bounds-checks `name_len`/`symbol_len`/`uri_len` against the buffer capacities.
    pub fn validate_lengths(&self) -> (r: Result<(), ProgramError>)
        ensures
            match self@.length_error() {
                Some(e) => r == Err::<(), ProgramError>(custom_error(e)),
                None => r == Ok::<(), ProgramError>(()),
            },
    {
        if self.name_len as usize > MAX_NAME_LEN {
            return Err(ProgramError::from(TokenMetadataError::NameTooLong));
        }
        if self.symbol_len as usize > MAX_SYMBOL_LEN {
            return Err(ProgramError::from(TokenMetadataError::SymbolTooLong));
        }
        if self.uri_len as usize > MAX_URI_LEN {
            return Err(ProgramError::from(TokenMetadataError::UriTooLong));
        }
        Ok(())
    }
}

/// The `CreateMetadata` payload, field by field.
pub struct CreateArgsView {
    pub bump: u8,
    pub initial_update_authority: Seq<u8>,
    pub content: ContentView,
}

/// Encoded length of [`CreateMetadataArgs`].
pub open spec fn create_args_len() -> nat {
    446
}

/// The `CreateMetadata` payload encoded by the 446 bytes `b`: bump, initial update
/// authority (32 bytes), then the content payload.
pub open spec fn parse_create_args(b: Seq<u8>) -> CreateArgsView {
    CreateArgsView {
        bump: b[0],
        initial_update_authority: b.subrange(1, 33),
        content: parse_content(b.subrange(33, 446)),
    }
}

/// `CreateMetadata` instruction data.
#[derive(Clone, Copy, Debug)]
pub struct CreateMetadataArgs {
    /// Bump for the `["metadata", mint, bump]` address, computed off-chain.
    pub bump: u8,
    /// Update authority to record on the new metadata; it need not sign.
    pub initial_update_authority: Address,
    pub content: MetadataContentArgs,
}

impl View for CreateMetadataArgs {
    type V = CreateArgsView;

    open spec fn view(&self) -> CreateArgsView {
        CreateArgsView {
            bump: self.bump,
            initial_update_authority: self.initial_update_authority@,
            content: self.content@,
        }
    }
}

impl CreateMetadataArgs {
    /// Encoded length of the payload.
    pub const LEN: usize = 446;

    /// Decodes the payload; the input must be exactly [`Self::LEN`] bytes.
    pub fn from_bytes(bytes: &[u8]) -> (r: Result<Self, ProgramError>)
        ensures
            bytes@.len() != create_args_len() ==> r == Err::<Self, ProgramError>(
                custom_error(TokenMetadataError::InvalidInstructionData),
            ),
            bytes@.len() == create_args_len() ==> r.is_ok() && r.unwrap()@ == parse_create_args(
                bytes@,
            ),
    {
        if bytes.len() != Self::LEN {
            return Err(ProgramError::from(TokenMetadataError::InvalidInstructionData));
        }
        let initial_update_authority = read_address(bytes, 1);
        let content = MetadataContentArgs::parse(&bytes[33..446]);
        Ok(CreateMetadataArgs { bump: bytes[0], initial_update_authority, content })
    }
}

/// `UpdateMetadata` instruction data.
pub type UpdateMetadataArgs = MetadataContentArgs;

/// The `SetUpdateAuthority` payload, field by field.
pub struct SetAuthorityArgsView {
    pub renounce: u8,
    pub new_update_authority: Seq<u8>,
}

/// Encoded length of [`SetUpdateAuthorityArgs`].
pub open spec fn set_authority_args_len() -> nat {
    33
}

/// The `SetUpdateAuthority` payload encoded by the 33 bytes `b`: renounce flag, then the
/// new update authority.
pub open spec fn parse_set_authority_args(b: Seq<u8>) -> SetAuthorityArgsView {
    SetAuthorityArgsView { renounce: b[0], new_update_authority: b.subrange(1, 33) }
}

/// `SetUpdateAuthority` instruction data.
#[derive(Clone, Copy, Debug)]
pub struct SetUpdateAuthorityArgs {
    /// Nonzero to renounce (set the update authority to the all-zero address), zero to
    /// transfer to `new_update_authority`.
    pub renounce: u8,
    pub new_update_authority: Address,
}

impl View for SetUpdateAuthorityArgs {
    type V = SetAuthorityArgsView;

    open spec fn view(&self) -> SetAuthorityArgsView {
        SetAuthorityArgsView {
            renounce: self.renounce,
            new_update_authority: self.new_update_authority@,
        }
    }
}

impl SetUpdateAuthorityArgs {
    /// Encoded length of the payload.
    pub const LEN: usize = 33;

    /// Decodes the payload; the input must be exactly [`Self::LEN`] bytes.
    pub fn from_bytes(bytes: &[u8]) -> (r: Result<Self, ProgramError>)
        ensures
            bytes@.len() != set_authority_args_len() ==> r == Err::<Self, ProgramError>(
                custom_error(TokenMetadataError::InvalidInstructionData),
            ),
            bytes@.len() == set_authority_args_len() ==> r.is_ok() && r.unwrap()@
                == parse_set_authority_args(bytes@),
    {
        if bytes.len() != Self::LEN {
            return Err(ProgramError::from(TokenMetadataError::InvalidInstructionData));
        }
        Ok(SetUpdateAuthorityArgs { renounce: bytes[0], new_update_authority: read_address(bytes, 1) })
    }
}

} // verus!
