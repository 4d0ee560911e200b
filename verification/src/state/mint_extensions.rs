//! Reading the `MetadataPointer` extension out of a Token-2022 mint's raw data.
use vstd::prelude::*;

use crate::address::{zeros, Address};
use crate::bytes::{all_zero, le_u16, u16_from_le};
use crate::error::{custom_error, ProgramError, TokenMetadataError};
use crate::instruction::read_address;

verus! {

/// `ExtensionType::MetadataPointer` discriminant in Token-2022's extension list.
const EXTENSION_TYPE_METADATA_POINTER: u16 = 18;

/// Size of the `MetadataPointer` extension's value: authority (32) + metadata address (32).
const METADATA_POINTER_VALUE_LEN: usize = 64;

/// `pinocchio_token_2022::state::Account::BASE_LEN`: the base size of a Token-2022 token
/// account, the fixed offset at which both mints and token accounts carry their one-byte
/// account-type marker, followed by the extension list.
///
/// The contract states the value that `Account`'s `repr(C)` layout gives: 165 bytes.
#[verifier::external_body]
fn account_type_marker_offset() -> (r: usize)
    ensures
        r == 165,
{
    pinocchio_token_2022::state::Account::BASE_LEN
}

/// The result of scanning the extension list from byte `off` on: each entry is a 2-byte type,
/// a 2-byte length and the value; a type of zero, or fewer than 4 bytes left, ends the list.
pub open spec fn scan_extensions(d: Seq<u8>, off: int) -> Result<Option<Seq<u8>>, ProgramError>
    decreases d.len() - off,
{
    if off < 0 || off + 4 > d.len() {
        Ok(None)
    } else {
        let ext_type = le_u16(d[off], d[off + 1]);
        let ext_len = le_u16(d[off + 2], d[off + 3]) as int;
        if ext_type == 0 {
            Ok(None)
        } else if off + 4 + ext_len > d.len() {
            Err(custom_error(TokenMetadataError::InvalidMint))
        } else if ext_type == 18 {
            if ext_len != 64 {
                Err(custom_error(TokenMetadataError::InvalidMint))
            } else {
                let address = d.subrange(off + 36, off + 68);
                if address == zeros(32) {
                    Ok(None)
                } else {
                    Ok(Some(address))
                }
            }
        } else {
            scan_extensions(d, off + 4 + ext_len)
        }
    }
}

/// The `metadata_address` of the mint's `MetadataPointer` extension, if it has one that is
/// set; an error if the extension list is malformed.
pub open spec fn metadata_pointer_spec(d: Seq<u8>) -> Result<Option<Seq<u8>>, ProgramError> {
    if d.len() <= 165 {
        Ok(None)
    } else {
        scan_extensions(d, 166)
    }
}

/// Scans a Token-2022 mint account's raw data for a `MetadataPointer` extension and returns
/// its `metadata_address` field, if the extension is present and that field is set.
///
/// Returns `Ok(None)` both when the mint has no extensions at all and when its
/// `MetadataPointer` has the all-zero `metadata_address`; returns an error only if the
/// extension list is malformed (truncated headers/values).
pub fn read_metadata_pointer(mint_data: &[u8]) -> (r: Result<Option<Address>, ProgramError>)
    ensures
        match metadata_pointer_spec(mint_data@) {
            Ok(None) => r == Ok::<Option<Address>, ProgramError>(None),
            Ok(Some(a)) => r.is_ok() && r.unwrap().is_some() && r.unwrap().unwrap()@ == a,
            Err(e) => r == Err::<Option<Address>, ProgramError>(e),
        },
{
    let marker = account_type_marker_offset();
    let len = mint_data.len();
    if len <= marker {
        return Ok(None);
    }
    let mut offset = marker + 1;
    loop
        invariant
            len == mint_data@.len(),
            166 <= offset <= len,
            metadata_pointer_spec(mint_data@) == scan_extensions(mint_data@, offset as int),
        decreases len - offset,
    {
        if len - offset < 4 {
            return Ok(None);
        }
        let ext_type = u16_from_le([mint_data[offset], mint_data[offset + 1]]);
        let ext_len = u16_from_le([mint_data[offset + 2], mint_data[offset + 3]]) as usize;
        if ext_type == 0 {
            return Ok(None);
        }
        let value_start = offset + 4;
        let value_end = match value_start.checked_add(ext_len) {
            Some(end) => end,
            None => {
                return Err(ProgramError::from(TokenMetadataError::InvalidMint));
            },
        };
        if value_end > len {
            return Err(ProgramError::from(TokenMetadataError::InvalidMint));
        }
        if ext_type == EXTENSION_TYPE_METADATA_POINTER {
            if ext_len != METADATA_POINTER_VALUE_LEN {
                return Err(ProgramError::from(TokenMetadataError::InvalidMint));
            }
            let metadata_address_bytes = &mint_data[value_start + 32..value_end];
            if all_zero(metadata_address_bytes) {
                return Ok(None);
            }
            return Ok(Some(read_address(mint_data, value_start + 32)));
        }
        offset = value_end;
    }
}

} // verus!
