//! The metadata record stored in a metadata account, and its fixed 493-byte encoding.
use vstd::prelude::*;

use crate::account::{AccountState, AccountView};
use crate::address::{lemma_address_len, zeros, Address};
use crate::bytes::{copy_into, copy_padded, le_u16, u16_from_le, u16_le_bytes, u16_to_le};
use crate::error::{custom_error, ProgramError, TokenMetadataError};
use crate::instruction::read_address;

verus! {

broadcast use vstd::array::group_array_axioms, lemma_address_len;

/// Maximum length of `name`, in bytes (UTF-8).
pub const MAX_NAME_LEN: usize = 32;

/// Maximum length of `symbol`, in bytes (UTF-8).
pub const MAX_SYMBOL_LEN: usize = 10;

/// Maximum length of `uri`, in bytes (UTF-8).
pub const MAX_URI_LEN: usize = 200;

/// Maximum number of creators.
pub const MAX_CREATORS: usize = 5;

/// Required total of creator `share` values.
pub const MAX_CREATOR_SHARE_TOTAL: u16 = 100;

/// Maximum `royalty_bps` value (100%).
pub const MAX_ROYALTY_BASIS_POINTS: u16 = 10_000;

/// Discriminator of an account that has not been initialized yet (freshly allocated, zeroed).
pub const DISCRIMINATOR_UNINITIALIZED: [u8; 8] = [0, 0, 0, 0, 0, 0, 0, 0];

/// Discriminator of an initialized [`TokenMetadata`] account: the first 8 bytes of
/// `sha256("account:TokenMetadata")`.
pub const DISCRIMINATOR_TOKEN_METADATA_V1: [u8; 8] = [0xed, 0xd7, 0x84, 0xb6, 0x18, 0x7f, 0xaf, 0xad];

/// Kind of token the metadata describes, inferred from the mint's decimals at creation time.
#[derive(Clone, Copy, Debug, PartialEq, Eq, Structural)]
pub enum TokenKind {
    /// A mint with `decimals > 0`, used as a divisible currency-like token.
    Fungible,
    /// A mint with `decimals == 0`, used as a whole-unit countable token.
    FungibleAsset,
}

impl TokenKind {
    /// The kind of a mint with the given number of decimals.
    pub open spec fn spec_from_decimals(decimals: u8) -> TokenKind {
        if decimals == 0 {
            TokenKind::FungibleAsset
        } else {
            TokenKind::Fungible
        }
    }

    /// The stored byte of each kind.
    pub open spec fn spec_as_u8(self) -> u8 {
        match self {
            TokenKind::Fungible => 0,
            TokenKind::FungibleAsset => 1,
        }
    }

    /// The kind of a mint with the given number of decimals.
    pub fn from_decimals(decimals: u8) -> (r: Self)
        ensures
            r == Self::spec_from_decimals(decimals),
    {
        if decimals == 0 {
            TokenKind::FungibleAsset
        } else {
            TokenKind::Fungible
        }
    }

    /// The byte under which the kind is stored.
    pub fn as_u8(&self) -> (r: u8)
        ensures
            r == self.spec_as_u8(),
    {
        match self {
            TokenKind::Fungible => 0,
            TokenKind::FungibleAsset => 1,
        }
    }
}

/// A creator entry, field by field.
pub struct CreatorEntryView {
    pub address: Seq<u8>,
    pub verified: u8,
    pub share: u8,
}

/// A single creator entry: an address, whether that address has verified its inclusion, and
/// its share (in whole percentage points) of attribution.
///
/// `verified` can only be flipped by the creator's own signature.
#[derive(Clone, Copy, Debug)]
pub struct CreatorEntry {
    pub address: Address,
    pub verified: u8,
    pub share: u8,
}

impl View for CreatorEntry {
    type V = CreatorEntryView;

    open spec fn view(&self) -> CreatorEntryView {
        CreatorEntryView { address: self.address@, verified: self.verified, share: self.share }
    }
}

impl CreatorEntry {
    /// Encoded length of an entry.
    pub const LEN: usize = 34;

    /// Whether the creator has verified its inclusion.
    pub fn is_verified(&self) -> (r: bool)
        ensures
            r == (self.verified != 0),
    {
        self.verified != 0
    }

    /// The entry every unused creator slot holds.
    pub fn empty() -> (r: Self)
        ensures
            r@ == empty_creator(),
    {
        CreatorEntry { address: Address::default(), verified: 0, share: 0 }
    }
}

/// The entry every unused creator slot holds.
pub open spec fn empty_creator() -> CreatorEntryView {
    CreatorEntryView { address: zeros(32), verified: 0, share: 0 }
}

/// A metadata record, field by field.
pub struct MetadataView {
    pub discriminator: Seq<u8>,
    pub bump: u8,
    pub is_mutable: u8,
    pub token_kind: u8,
    pub update_authority: Seq<u8>,
    pub mint: Seq<u8>,
    pub royalty_bps: Seq<u8>,
    pub name_len: u8,
    pub name: Seq<u8>,
    pub symbol_len: u8,
    pub symbol: Seq<u8>,
    pub uri_len: u8,
    pub uri: Seq<u8>,
    pub creator_count: u8,
    pub creators: Seq<CreatorEntryView>,
}

impl MetadataView {
    /// Every field has the length of its slot in the encoding.
    pub open spec fn wf(self) -> bool {
        &&& self.discriminator.len() == 8
        &&& self.update_authority.len() == 32
        &&& self.mint.len() == 32
        &&& self.royalty_bps.len() == 2
        &&& self.name.len() == MAX_NAME_LEN
        &&& self.symbol.len() == MAX_SYMBOL_LEN
        &&& self.uri.len() == MAX_URI_LEN
        &&& self.creators.len() == MAX_CREATORS
        &&& forall|i: int| 0 <= i < MAX_CREATORS ==> (#[trigger] self.creators[i]).address.len() == 32
    }

    /// Whether the record may still be changed.
    pub open spec fn mutable(self) -> bool {
        self.is_mutable != 0
    }

    /// The royalty in basis points.
    pub open spec fn royalty(self) -> u16 {
        le_u16(self.royalty_bps[0], self.royalty_bps[1])
    }

    /// The name: the first `name_len` bytes of its buffer.
    pub open spec fn name_bytes(self) -> Seq<u8> {
        self.name.subrange(0, self.name_len as int)
    }

    /// The symbol: the first `symbol_len` bytes of its buffer.
    pub open spec fn symbol_bytes(self) -> Seq<u8> {
        self.symbol.subrange(0, self.symbol_len as int)
    }

    /// The uri: the first `uri_len` bytes of its buffer.
    pub open spec fn uri_bytes(self) -> Seq<u8> {
        self.uri.subrange(0, self.uri_len as int)
    }

    /// The listed creators: the first `creator_count` entries.
    pub open spec fn creator_list(self) -> Seq<CreatorEntryView> {
        self.creators.subrange(0, self.creator_count as int)
    }
}

/// Encoded length of [`TokenMetadata`].
pub open spec fn metadata_len() -> nat {
    493
}

/// Offset of creator `i` inside the encoding.
pub open spec fn creator_offset(i: int) -> int {
    323 + 34 * i
}

/// The record encoded by the 493 bytes `b`: discriminator (8), bump, is_mutable, token_kind,
/// update authority (32), mint (32), royalty (2, little-endian), name length and 32-byte
/// buffer, symbol length and 10-byte buffer, uri length and 200-byte buffer, creator count
/// and five 34-byte creator slots (address, verified, share).
pub open spec fn parse_metadata(b: Seq<u8>) -> MetadataView {
    MetadataView {
        discriminator: b.subrange(0, 8),
        bump: b[8],
        is_mutable: b[9],
        token_kind: b[10],
        update_authority: b.subrange(11, 43),
        mint: b.subrange(43, 75),
        royalty_bps: b.subrange(75, 77),
        name_len: b[77],
        name: b.subrange(78, 110),
        symbol_len: b[110],
        symbol: b.subrange(111, 121),
        uri_len: b[121],
        uri: b.subrange(122, 322),
        creator_count: b[322],
        creators: Seq::new(
            5,
            |i: int|
                CreatorEntryView {
                    address: b.subrange(creator_offset(i), creator_offset(i) + 32),
                    verified: b[creator_offset(i) + 32],
                    share: b[creator_offset(i) + 33],
                },
        ),
    }
}

/// The 34 bytes of a creator entry.
pub open spec fn creator_bytes(c: CreatorEntryView) -> Seq<u8> {
    c.address + seq![c.verified, c.share]
}

/// The concatenated encodings of a list of creator entries.
pub open spec fn creators_bytes(cs: Seq<CreatorEntryView>) -> Seq<u8>
    decreases cs.len(),
{
    if cs.len() == 0 {
        Seq::empty()
    } else {
        creators_bytes(cs.drop_last()) + creator_bytes(cs.last())
    }
}

/// The encoding of a record.
pub open spec fn metadata_bytes(v: MetadataView) -> Seq<u8> {
    v.discriminator + seq![v.bump, v.is_mutable, v.token_kind] + v.update_authority + v.mint
        + v.royalty_bps + seq![v.name_len] + v.name + seq![v.symbol_len] + v.symbol + seq![
        v.uri_len,
    ] + v.uri + seq![v.creator_count] + creators_bytes(v.creators)
}


/// The creator entry stored in slot `i` of the encoding `b`.
pub open spec fn parse_creator(b: Seq<u8>, i: int) -> CreatorEntryView {
    CreatorEntryView {
        address: b.subrange(creator_offset(i), creator_offset(i) + 32),
        verified: b[creator_offset(i) + 32],
        share: b[creator_offset(i) + 33],
    }
}

proof fn lemma_creators_bytes_slots(cs: Seq<CreatorEntryView>)
    requires
        forall|i: int| 0 <= i < cs.len() ==> (#[trigger] cs[i]).address.len() == 32,
    ensures
        creators_bytes(cs).len() == 34 * cs.len(),
        forall|i: int|
            0 <= i < cs.len() ==> creators_bytes(cs).subrange(34 * i, 34 * i + 34) == creator_bytes(
                #[trigger] cs[i],
            ),
    decreases cs.len(),
{
    if cs.len() > 0 {
        let init = cs.drop_last();
        assert forall|i: int| 0 <= i < init.len() implies (#[trigger] init[i]).address.len() == 32 by {
            assert(init[i] == cs[i]);
        }
        lemma_creators_bytes_slots(init);
        let whole = creators_bytes(cs);
        assert(whole == creators_bytes(init) + creator_bytes(cs.last()));
        assert forall|i: int| 0 <= i < cs.len() implies whole.subrange(34 * i, 34 * i + 34)
            == creator_bytes(#[trigger] cs[i]) by {
            if i < cs.len() - 1 {
                assert(init[i] == cs[i]);
                assert(whole.subrange(34 * i, 34 * i + 34) =~= creators_bytes(init).subrange(
                    34 * i,
                    34 * i + 34,
                ));
            } else {
                assert(whole.subrange(34 * i, 34 * i + 34) =~= creator_bytes(cs.last()));
            }
        }
    }
}

proof fn lemma_creators_bytes_of_parsed(b: Seq<u8>, n: int)
    requires
        0 <= n <= 5,
        b.len() == metadata_len(),
    ensures
        creators_bytes(Seq::new(n as nat, |i: int| parse_creator(b, i))) == b.subrange(
            323,
            323 + 34 * n,
        ),
    decreases n,
{
    let cs = Seq::new(n as nat, |i: int| parse_creator(b, i));
    if n == 0 {
        assert(creators_bytes(cs) =~= b.subrange(323, 323));
    } else {
        lemma_creators_bytes_of_parsed(b, n - 1);
        let init = Seq::new((n - 1) as nat, |i: int| parse_creator(b, i));
        assert(cs.drop_last() =~= init);
        assert(creator_bytes(cs.last()) =~= b.subrange(323 + 34 * (n - 1), 323 + 34 * n));
        assert(creators_bytes(cs) =~= b.subrange(323, 323 + 34 * n));
    }
}

/// Decoding an encoded record gives back the record.
pub proof fn lemma_parse_metadata_bytes(v: MetadataView)
    requires
        v.wf(),
    ensures
        metadata_bytes(v).len() == metadata_len(),
        parse_metadata(metadata_bytes(v)) == v,
{
    lemma_creators_bytes_slots(v.creators);
    let b = metadata_bytes(v);
    let cb = creators_bytes(v.creators);
    assert(b.subrange(323, 493) =~= cb);
    let p = parse_metadata(b);
    assert(p.discriminator =~= v.discriminator);
    assert(p.update_authority =~= v.update_authority);
    assert(p.mint =~= v.mint);
    assert(p.royalty_bps =~= v.royalty_bps);
    assert(p.name =~= v.name);
    assert(p.symbol =~= v.symbol);
    assert(p.uri =~= v.uri);
    assert forall|i: int| 0 <= i < 5 implies p.creators[i] == v.creators[i] by {
        let slot = cb.subrange(34 * i, 34 * i + 34);
        assert(slot == creator_bytes(v.creators[i]));
        assert(b.subrange(creator_offset(i), creator_offset(i) + 32) =~= slot.subrange(0, 32));
        assert(slot.subrange(0, 32) =~= v.creators[i].address);
        assert(b[creator_offset(i) + 32] == slot[32]);
        assert(b[creator_offset(i) + 33] == slot[33]);
    }
    assert(p.creators =~= v.creators);
}

/// Encoding a decoded record gives back the bytes.
pub proof fn lemma_metadata_bytes_parse(b: Seq<u8>)
    requires
        b.len() == metadata_len(),
    ensures
        parse_metadata(b).wf(),
        metadata_bytes(parse_metadata(b)) == b,
{
    let p = parse_metadata(b);
    lemma_creators_bytes_of_parsed(b, 5);
    assert(p.creators =~= Seq::new(5, |i: int| parse_creator(b, i)));
    assert(metadata_bytes(p) =~= b);
}


/// On-chain metadata record for a single SPL Token / Token-2022 mint.
///
/// Every variable-length field (`name`, `symbol`, `uri`, `creators`) has a fixed capacity plus
/// an explicit length, so the account never needs to be resized after creation.
#[derive(Clone, Copy, Debug)]
pub struct TokenMetadata {
    /// Account discriminator; see the `DISCRIMINATOR_*` constants.
    pub discriminator: [u8; 8],
    /// Bump seed of the `["metadata", mint]` address.
    pub bump: u8,
    /// `1` if the metadata can still be updated/closed, `0` if permanently immutable.
    pub is_mutable: u8,
    /// See [`TokenKind`].
    pub token_kind: u8,
    /// Authority allowed to update or close this metadata. All-zero once renounced.
    pub update_authority: Address,
    /// The mint this metadata describes.
    pub mint: Address,
    /// Royalty basis points (0-10_000), little-endian. Informational only.
    pub royalty_bps: [u8; 2],
    pub name_len: u8,
    pub name: [u8; MAX_NAME_LEN],
    pub symbol_len: u8,
    pub symbol: [u8; MAX_SYMBOL_LEN],
    pub uri_len: u8,
    pub uri: [u8; MAX_URI_LEN],
    pub creator_count: u8,
    pub creators: [CreatorEntry; MAX_CREATORS],
}

impl View for TokenMetadata {
    type V = MetadataView;

    open spec fn view(&self) -> MetadataView {
        MetadataView {
            discriminator: self.discriminator@,
            bump: self.bump,
            is_mutable: self.is_mutable,
            token_kind: self.token_kind,
            update_authority: self.update_authority@,
            mint: self.mint@,
            royalty_bps: self.royalty_bps@,
            name_len: self.name_len,
            name: self.name@,
            symbol_len: self.symbol_len,
            symbol: self.symbol@,
            uri_len: self.uri_len,
            uri: self.uri@,
            creator_count: self.creator_count,
            creators: self.creators@.map_values(|c: CreatorEntry| c@),
        }
    }
}

/// Why an account cannot be read as initialized metadata of `program_id`, if it cannot.
pub open spec fn load_error(account: AccountState, program_id: Seq<u8>) -> Option<ProgramError> {
    if account.owner != program_id {
        Some(custom_error(TokenMetadataError::IncorrectMetadataOwner))
    } else if account.data.len() != metadata_len() {
        Some(ProgramError::InvalidAccountData)
    } else if account.data.subrange(0, 8) != DISCRIMINATOR_TOKEN_METADATA_V1@ {
        Some(custom_error(TokenMetadataError::UninitializedMetadata))
    } else {
        None
    }
}

/// Why an account cannot be initialized as metadata of `program_id`, if it cannot.
pub open spec fn load_uninitialized_error(account: AccountState, program_id: Seq<u8>) -> Option<
    ProgramError,
> {
    if account.owner != program_id {
        Some(custom_error(TokenMetadataError::IncorrectMetadataOwner))
    } else if account.data.len() != metadata_len() {
        Some(ProgramError::InvalidAccountData)
    } else if account.data.subrange(0, 8) != DISCRIMINATOR_UNINITIALIZED@ {
        Some(custom_error(TokenMetadataError::AlreadyInitialized))
    } else {
        None
    }
}

fn push_all(out: &mut Vec<u8>, s: &[u8])
    ensures
        final(out)@ == old(out)@ + s@,
{
    let len = s.len();
    let mut i: usize = 0;
    while i < len
        invariant
            i <= len,
            len == s@.len(),
            out@ == old(out)@ + s@.subrange(0, i as int),
        decreases len - i,
    {
        out.push(s[i]);
        i = i + 1;
        assert(out@ =~= old(out)@ + s@.subrange(0, i as int));
    }
    assert(s@.subrange(0, len as int) =~= s@);
}

fn metadata_discriminator_matches(data: &[u8], expected: &[u8; 8]) -> (r: bool)
    requires
        data@.len() >= 8,
    ensures
        r == (data@.subrange(0, 8) == expected@),
{
    let mut i: usize = 0;
    while i < 8
        invariant
            i <= 8,
            data@.len() >= 8,
            forall|j: int| 0 <= j < i ==> data@[j] == expected@[j],
        decreases 8 - i,
    {
        if data[i] != expected[i] {
            assert(data@.subrange(0, 8)[i as int] != expected@[i as int]);
            return false;
        }
        i = i + 1;
    }
    assert(data@.subrange(0, 8) =~= expected@);
    true
}

impl TokenMetadata {
    /// Encoded length of a record.
    pub const LEN: usize = 493;

    /// Decodes exactly [`Self::LEN`] bytes.
    pub(crate) fn parse(bytes: &[u8]) -> (r: Self)
        requires
            bytes@.len() == metadata_len(),
        ensures
            r@ == parse_metadata(bytes@),
    {
        let mut discriminator = [0u8; 8];
        copy_into(&mut discriminator, bytes, 0);
        let update_authority = read_address(bytes, 11);
        let mint = read_address(bytes, 43);
        let mut royalty_bps = [0u8; 2];
        copy_into(&mut royalty_bps, bytes, 75);
        let mut name = [0u8; MAX_NAME_LEN];
        copy_into(&mut name, bytes, 78);
        let mut symbol = [0u8; MAX_SYMBOL_LEN];
        copy_into(&mut symbol, bytes, 111);
        let mut uri = [0u8; MAX_URI_LEN];
        copy_into(&mut uri, bytes, 122);
        let mut creators = [CreatorEntry::empty(); MAX_CREATORS];
        let mut i: usize = 0;
        while i < MAX_CREATORS
            invariant
                i <= MAX_CREATORS,
                bytes@.len() == metadata_len(),
                creators@.len() == MAX_CREATORS,
                forall|j: int| 0 <= j < i ==> #[trigger] creators@[j]@ == parse_creator(bytes@, j),
            decreases MAX_CREATORS - i,
        {
            let off = 323 + 34 * i;
            let address = read_address(bytes, off);
            creators[i] = CreatorEntry { address, verified: bytes[off + 32], share: bytes[off + 33] };
            i = i + 1;
        }
        let r = TokenMetadata {
            discriminator,
            bump: bytes[8],
            is_mutable: bytes[9],
            token_kind: bytes[10],
            update_authority,
            mint,
            royalty_bps,
            name_len: bytes[77],
            name,
            symbol_len: bytes[110],
            symbol,
            uri_len: bytes[121],
            uri,
            creator_count: bytes[322],
            creators,
        };
        assert(r@.creators =~= parse_metadata(bytes@).creators);
        r
    }

    /// The record's 493-byte encoding.
    pub fn to_bytes(&self) -> (r: Vec<u8>)
        ensures
            r@ == metadata_bytes(self@),
            r@.len() == metadata_len(),
    {
        let mut out: Vec<u8> = Vec::new();
        push_all(&mut out, &self.discriminator);
        out.push(self.bump);
        out.push(self.is_mutable);
        out.push(self.token_kind);
        push_all(&mut out, self.update_authority.as_array());
        push_all(&mut out, self.mint.as_array());
        push_all(&mut out, &self.royalty_bps);
        out.push(self.name_len);
        push_all(&mut out, &self.name);
        out.push(self.symbol_len);
        push_all(&mut out, &self.symbol);
        out.push(self.uri_len);
        push_all(&mut out, &self.uri);
        out.push(self.creator_count);
        let ghost head = out@;
        let ghost cs = self@.creators;
        let mut i: usize = 0;
        while i < MAX_CREATORS
            invariant
                i <= MAX_CREATORS,
                cs == self@.creators,
                cs.len() == MAX_CREATORS,
                out@ == head + creators_bytes(cs.subrange(0, i as int)),
            decreases MAX_CREATORS - i,
        {
            let c = self.creators[i];
            push_all(&mut out, c.address.as_array());
            out.push(c.verified);
            out.push(c.share);
            assert(cs.subrange(0, i + 1).drop_last() =~= cs.subrange(0, i as int));
            assert(out@ =~= head + creators_bytes(cs.subrange(0, i + 1)));
            i = i + 1;
        }
        assert(cs.subrange(0, 5) =~= cs);
        proof {
            lemma_parse_metadata_bytes(self@);
        }
        out
    }

    /// Writes the record back into `account`'s data.
    pub fn store(&self, account: &mut AccountView)
        ensures
            final(account)@ == (AccountState { data: metadata_bytes(self@), ..old(account)@ }),
    {
        account.data = self.to_bytes();
    }

    /// Reads an already-initialized metadata account, verifying ownership, size and
    /// discriminator.
    pub fn from_account_view(account: &AccountView, program_id: &Address) -> (r: Result<
        TokenMetadata,
        ProgramError,
    >)
        ensures
            match load_error(account@, program_id@) {
                Some(e) => r == Err::<TokenMetadata, ProgramError>(e),
                None => r.is_ok() && r.unwrap()@ == parse_metadata(account@.data),
            },
    {
        if !account.owned_by(program_id) {
            return Err(ProgramError::from(TokenMetadataError::IncorrectMetadataOwner));
        }
        if account.data_len() != Self::LEN {
            return Err(ProgramError::InvalidAccountData);
        }
        if !metadata_discriminator_matches(&account.data, &DISCRIMINATOR_TOKEN_METADATA_V1) {
            return Err(ProgramError::from(TokenMetadataError::UninitializedMetadata));
        }
        Ok(Self::parse(&account.data))
    }

    /// Reads an already-initialized metadata account that is about to be changed, verifying
    /// ownership, size and discriminator. The changed record is written back with
    /// [`Self::store`].
    pub fn from_account_view_mut(account: &AccountView, program_id: &Address) -> (r: Result<
        TokenMetadata,
        ProgramError,
    >)
        ensures
            match load_error(account@, program_id@) {
                Some(e) => r == Err::<TokenMetadata, ProgramError>(e),
                None => r.is_ok() && r.unwrap()@ == parse_metadata(account@.data),
            },
    {
        Self::from_account_view(account, program_id)
    }

    /// Reads a freshly allocated, not-yet-initialized metadata account, verifying ownership
    /// and size and requiring the discriminator to be zero, so that an existing record can
    /// never be initialized again.
    pub fn from_uninitialized_account_view_mut(account: &AccountView, program_id: &Address) -> (r:
        Result<TokenMetadata, ProgramError>)
        ensures
            match load_uninitialized_error(account@, program_id@) {
                Some(e) => r == Err::<TokenMetadata, ProgramError>(e),
                None => r.is_ok() && r.unwrap()@ == parse_metadata(account@.data),
            },
    {
        if !account.owned_by(program_id) {
            return Err(ProgramError::from(TokenMetadataError::IncorrectMetadataOwner));
        }
        if account.data_len() != Self::LEN {
            return Err(ProgramError::InvalidAccountData);
        }
        if !metadata_discriminator_matches(&account.data, &DISCRIMINATOR_UNINITIALIZED) {
            return Err(ProgramError::from(TokenMetadataError::AlreadyInitialized));
        }
        Ok(Self::parse(&account.data))
    }

    /// Whether the record may still be changed.
    pub fn is_mutable(&self) -> (r: bool)
        ensures
            r == self@.mutable(),
    {
        self.is_mutable != 0
    }

    /// Sets or clears the mutable flag.
    pub fn set_mutable(&mut self, mutable: bool)
        ensures
            final(self)@ == (MetadataView {
                is_mutable: if mutable {
                    1u8
                } else {
                    0u8
                },
                ..old(self)@
            }),
    {
        self.is_mutable = if mutable {
            1
        } else {
            0
        };
    }

    /// The royalty in basis points.
    pub fn royalty_bps(&self) -> (r: u16)
        ensures
            r == self@.royalty(),
    {
        u16_from_le(self.royalty_bps)
    }

    /// Sets the royalty in basis points.
    pub fn set_royalty_bps(&mut self, bps: u16)
        ensures
            final(self)@ == (MetadataView { royalty_bps: u16_le_bytes(bps), ..old(self)@ }),
            final(self)@.royalty() == bps,
    {
        self.royalty_bps = u16_to_le(bps);
    }

    /// The name bytes.
    pub fn name(&self) -> (r: &[u8])
        requires
            self.name_len <= MAX_NAME_LEN,
        ensures
            r@ == self@.name_bytes(),
    {
        &self.name[0..self.name_len as usize]
    }

    /// The symbol bytes.
    pub fn symbol(&self) -> (r: &[u8])
        requires
            self.symbol_len <= MAX_SYMBOL_LEN,
        ensures
            r@ == self@.symbol_bytes(),
    {
        &self.symbol[0..self.symbol_len as usize]
    }

    /// The uri bytes.
    pub fn uri(&self) -> (r: &[u8])
        requires
            self.uri_len <= MAX_URI_LEN,
        ensures
            r@ == self@.uri_bytes(),
    {
        &self.uri[0..self.uri_len as usize]
    }

    /// The listed creators.
    pub fn creators(&self) -> (r: &[CreatorEntry])
        requires
            self.creator_count <= MAX_CREATORS,
        ensures
            r@.map_values(|c: CreatorEntry| c@) == self@.creator_list(),
    {
        let r = &self.creators[0..self.creator_count as usize];
        assert(r@.map_values(|c: CreatorEntry| c@) =~= self@.creator_list());
        r
    }

    /// The listed creators, for changing in place.
    pub fn creators_mut(&mut self) -> (r: &mut [CreatorEntry])
        requires
            old(self).creator_count <= MAX_CREATORS,
        ensures
            r@ == old(self).creators@.subrange(0, old(self).creator_count as int),
            final(self).creators@ == final(r)@ + old(self).creators@.subrange(
                old(self).creator_count as int,
                MAX_CREATORS as int,
            ),
            final(self)@ == (MetadataView { creators: final(self)@.creators, ..old(self)@ }),
    {
        let count = self.creator_count as usize;
        let all: &mut [CreatorEntry] = &mut self.creators;
        let (listed, _rest) = all.split_at_mut(count);
        listed
    }

    /// Overwrites `name`/`symbol`/`uri`, zeroing unused capacity so that no stale bytes from a
    /// previous, longer value remain readable.
    pub fn set_content(&mut self, name: &[u8], symbol: &[u8], uri: &[u8])
        requires
            name@.len() <= MAX_NAME_LEN,
            symbol@.len() <= MAX_SYMBOL_LEN,
            uri@.len() <= MAX_URI_LEN,
        ensures
            final(self)@ == (MetadataView {
                name_len: name@.len() as u8,
                name: name@ + zeros((MAX_NAME_LEN - name@.len()) as nat),
                symbol_len: symbol@.len() as u8,
                symbol: symbol@ + zeros((MAX_SYMBOL_LEN - symbol@.len()) as nat),
                uri_len: uri@.len() as u8,
                uri: uri@ + zeros((MAX_URI_LEN - uri@.len()) as nat),
                ..old(self)@
            }),
    {
        copy_padded(&mut self.name, name);
        self.name_len = name.len() as u8;
        copy_padded(&mut self.symbol, symbol);
        self.symbol_len = symbol.len() as u8;
        copy_padded(&mut self.uri, uri);
        self.uri_len = uri.len() as u8;
    }

    /// Overwrites the creators list, emptying unused slots.
    pub fn set_creators(&mut self, creators: &[CreatorEntry])
        requires
            creators@.len() <= MAX_CREATORS,
        ensures
            final(self)@ == (MetadataView {
                creator_count: creators@.len() as u8,
                creators: creators@.map_values(|c: CreatorEntry| c@) + Seq::new(
                    (MAX_CREATORS - creators@.len()) as nat,
                    |i: int| empty_creator(),
                ),
                ..old(self)@
            }),
    {
        let len = creators.len();
        let mut i: usize = 0;
        while i < MAX_CREATORS
            invariant
                i <= MAX_CREATORS,
                len == creators@.len(),
                len <= MAX_CREATORS,
                self.creators@.len() == MAX_CREATORS,
                forall|j: int|
                    0 <= j < i ==> #[trigger] self.creators@[j]@ == (if j < len {
                        creators@[j]@
                    } else {
                        empty_creator()
                    }),
                self.discriminator == old(self).discriminator,
                self.bump == old(self).bump,
                self.is_mutable == old(self).is_mutable,
                self.token_kind == old(self).token_kind,
                self.update_authority == old(self).update_authority,
                self.mint == old(self).mint,
                self.royalty_bps == old(self).royalty_bps,
                self.name_len == old(self).name_len,
                self.name == old(self).name,
                self.symbol_len == old(self).symbol_len,
                self.symbol == old(self).symbol,
                self.uri_len == old(self).uri_len,
                self.uri == old(self).uri,
                self.creator_count == old(self).creator_count,
            decreases MAX_CREATORS - i,
        {
            if i < len {
                self.creators[i] = creators[i];
            } else {
                self.creators[i] = CreatorEntry::empty();
            }
            i = i + 1;
        }
        self.creator_count = len as u8;
        assert(self@.creators =~= creators@.map_values(|c: CreatorEntry| c@) + Seq::new(
            (MAX_CREATORS - creators@.len()) as nat,
            |i: int| empty_creator(),
        ));
    }
}

} // verus!
