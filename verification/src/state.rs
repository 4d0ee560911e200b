//! On-chain state: the metadata record and the mint extensions it is checked against.
pub mod metadata;
pub mod mint_extensions;

pub use metadata::{
    CreatorEntry, TokenKind, TokenMetadata, DISCRIMINATOR_TOKEN_METADATA_V1,
    DISCRIMINATOR_UNINITIALIZED, MAX_CREATORS, MAX_CREATOR_SHARE_TOTAL, MAX_NAME_LEN,
    MAX_ROYALTY_BASIS_POINTS, MAX_SYMBOL_LEN, MAX_URI_LEN,
};
pub use mint_extensions::read_metadata_pointer;
