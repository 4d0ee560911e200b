//! Program errors.
use vstd::prelude::*;

verus! {

/// Program-specific errors, surfaced to clients as `ProgramError::Custom(code)`.
#[derive(Clone, Copy, Debug, PartialEq, Eq, Structural)]
pub enum TokenMetadataError {
    /// Instruction data was too short or malformed for the requested instruction.
    InvalidInstructionData,
    /// The instruction discriminator did not match any known instruction.
    UnknownInstruction,
    /// The mint account is not owned by the SPL Token or Token-2022 program.
    IncorrectMintOwner,
    /// The mint account failed basic layout/initialization checks.
    InvalidMint,
    /// The mint has no mint authority set, so metadata can never be attached to it.
    MintHasNoAuthority,
    /// The provided mint authority account does not match the mint's recorded authority.
    InvalidMintAuthority,
    /// The mint authority account was not a signer.
    MintAuthorityNotSigner,
    /// The metadata account is not owned by this program.
    IncorrectMetadataOwner,
    /// The metadata address does not match `["metadata", mint, bump]` for the given mint/program.
    InvalidMetadataAddress,
    /// The metadata account's `mint` field does not match the supplied mint account.
    MintMismatch,
    /// The provided update authority does not match the metadata's recorded update authority.
    UpdateAuthorityIncorrect,
    /// The update authority account was not a signer.
    UpdateAuthorityNotSigner,
    /// `name` exceeds the maximum allowed length.
    NameTooLong,
    /// `symbol` exceeds the maximum allowed length.
    SymbolTooLong,
    /// `uri` exceeds the maximum allowed length.
    UriTooLong,
    /// `royalty_bps` exceeds 10_000 (100%).
    InvalidRoyaltyBasisPoints,
    /// More than the maximum number of creators were supplied.
    TooManyCreators,
    /// The same creator address appears more than once.
    DuplicateCreatorAddress,
    /// Creator shares do not sum to exactly 100.
    CreatorSharesMustSumTo100,
    /// The metadata is immutable; no further changes are permitted.
    DataIsImmutable,
    /// `SetImmutable` was called on metadata that is already immutable.
    AlreadyImmutable,
    /// The signer is not one of the metadata's listed creators.
    SignerNotACreator,
    /// The metadata account is already initialized.
    AlreadyInitialized,
    /// The metadata account is not initialized.
    UninitializedMetadata,
    /// A Token-2022 mint declares a `MetadataPointer` extension that does not point at this metadata account.
    InvalidMetadataPointer,
    /// A required signer account was not a signer.
    MissingRequiredSignature,
    /// An account passed as a "known" program account did not match its expected program ID.
    IncorrectProgramId,
    /// A numeric operation would have overflowed.
    NumericalOverflow,
    /// The new update authority cannot be the default (all-zero) address without the explicit renounce flag.
    InvalidNewUpdateAuthority,
}

impl TokenMetadataError {
    /// The numeric code under which this error is reported: its position in the declaration.
    pub open spec fn spec_code(self) -> u32 {
        match self {
            TokenMetadataError::InvalidInstructionData => 0,
            TokenMetadataError::UnknownInstruction => 1,
            TokenMetadataError::IncorrectMintOwner => 2,
            TokenMetadataError::InvalidMint => 3,
            TokenMetadataError::MintHasNoAuthority => 4,
            TokenMetadataError::InvalidMintAuthority => 5,
            TokenMetadataError::MintAuthorityNotSigner => 6,
            TokenMetadataError::IncorrectMetadataOwner => 7,
            TokenMetadataError::InvalidMetadataAddress => 8,
            TokenMetadataError::MintMismatch => 9,
            TokenMetadataError::UpdateAuthorityIncorrect => 10,
            TokenMetadataError::UpdateAuthorityNotSigner => 11,
            TokenMetadataError::NameTooLong => 12,
            TokenMetadataError::SymbolTooLong => 13,
            TokenMetadataError::UriTooLong => 14,
            TokenMetadataError::InvalidRoyaltyBasisPoints => 15,
            TokenMetadataError::TooManyCreators => 16,
            TokenMetadataError::DuplicateCreatorAddress => 17,
            TokenMetadataError::CreatorSharesMustSumTo100 => 18,
            TokenMetadataError::DataIsImmutable => 19,
            TokenMetadataError::AlreadyImmutable => 20,
            TokenMetadataError::SignerNotACreator => 21,
            TokenMetadataError::AlreadyInitialized => 22,
            TokenMetadataError::UninitializedMetadata => 23,
            TokenMetadataError::InvalidMetadataPointer => 24,
            TokenMetadataError::MissingRequiredSignature => 25,
            TokenMetadataError::IncorrectProgramId => 26,
            TokenMetadataError::NumericalOverflow => 27,
            TokenMetadataError::InvalidNewUpdateAuthority => 28,
        }
    }

    /// The numeric code under which this error is reported.
    pub fn code(&self) -> (r: u32)
        ensures
            r == self.spec_code(),
    {
        match self {
            TokenMetadataError::InvalidInstructionData => 0,
            TokenMetadataError::UnknownInstruction => 1,
            TokenMetadataError::IncorrectMintOwner => 2,
            TokenMetadataError::InvalidMint => 3,
            TokenMetadataError::MintHasNoAuthority => 4,
            TokenMetadataError::InvalidMintAuthority => 5,
            TokenMetadataError::MintAuthorityNotSigner => 6,
            TokenMetadataError::IncorrectMetadataOwner => 7,
            TokenMetadataError::InvalidMetadataAddress => 8,
            TokenMetadataError::MintMismatch => 9,
            TokenMetadataError::UpdateAuthorityIncorrect => 10,
            TokenMetadataError::UpdateAuthorityNotSigner => 11,
            TokenMetadataError::NameTooLong => 12,
            TokenMetadataError::SymbolTooLong => 13,
            TokenMetadataError::UriTooLong => 14,
            TokenMetadataError::InvalidRoyaltyBasisPoints => 15,
            TokenMetadataError::TooManyCreators => 16,
            TokenMetadataError::DuplicateCreatorAddress => 17,
            TokenMetadataError::CreatorSharesMustSumTo100 => 18,
            TokenMetadataError::DataIsImmutable => 19,
            TokenMetadataError::AlreadyImmutable => 20,
            TokenMetadataError::SignerNotACreator => 21,
            TokenMetadataError::AlreadyInitialized => 22,
            TokenMetadataError::UninitializedMetadata => 23,
            TokenMetadataError::InvalidMetadataPointer => 24,
            TokenMetadataError::MissingRequiredSignature => 25,
            TokenMetadataError::IncorrectProgramId => 26,
            TokenMetadataError::NumericalOverflow => 27,
            TokenMetadataError::InvalidNewUpdateAuthority => 28,
        }
    }
}

/// Errors returned by the program's instruction handlers.
#[derive(Clone, Copy, Debug, PartialEq, Eq, Structural)]
pub enum ProgramError {
    /// A program-specific error; see [`TokenMetadataError`].
    Custom(u32),
    /// An account's data was not as expected (wrong size, not writable).
    InvalidAccountData,
    /// The instruction was given the wrong number of accounts.
    NotEnoughAccountKeys,
}

/// The `ProgramError` that reports `e`.
pub open spec fn custom_error(e: TokenMetadataError) -> ProgramError {
    ProgramError::Custom(e.spec_code())
}

impl From<TokenMetadataError> for ProgramError {
    fn from(e: TokenMetadataError) -> (r: ProgramError) {
        ProgramError::Custom(e.code())
    }
}

impl vstd::std_specs::convert::FromSpecImpl<TokenMetadataError> for ProgramError {
    open spec fn obeys_from_spec() -> bool {
        true
    }

    open spec fn from_spec(e: TokenMetadataError) -> ProgramError {
        custom_error(e)
    }
}

/// Distinct program-specific errors are reported under distinct codes.
pub proof fn lemma_codes_distinct(a: TokenMetadataError, b: TokenMetadataError)
    requires
        a != b,
    ensures
        a.spec_code() != b.spec_code(),
{
}

} // verus!
