//! Addresses of the programs this program works with.
use vstd::prelude::*;

verus! {

/// Address of the SPL Token program (`TokenkegQfeZyiNwAJbNbGKPFXCWuBvf9Ss623VQ5DA`).
pub open spec fn spl_token_id() -> Seq<u8> {
    seq![
        0x06u8, 0xdd, 0xf6, 0xe1, 0xd7, 0x65, 0xa1, 0x93, 0xd9, 0xcb, 0xe1, 0x46, 0xce, 0xeb, 0x79,
        0xac, 0x1c, 0xb4, 0x85, 0xed, 0x5f, 0x5b, 0x37, 0x91, 0x3a, 0x8c, 0xf5, 0x85, 0x7e, 0xff,
        0x00, 0xa9,
    ]
}

/// Address of the SPL Token-2022 program (`TokenzQdBNbLqP5VEhdkAS6EPFLC1PHnBqCXEpPxuEb`).
pub open spec fn spl_token_2022_id() -> Seq<u8> {
    seq![
        0x06u8, 0xdd, 0xf6, 0xe1, 0xee, 0x75, 0x8f, 0xde, 0x18, 0x42, 0x5d, 0xbc, 0xe4, 0x6c, 0xcd,
        0xda, 0xb6, 0x1a, 0xfc, 0x4d, 0x83, 0xb9, 0x0d, 0x27, 0xfe, 0xbd, 0xf9, 0x28, 0xd8, 0xa1,
        0x8b, 0xfc,
    ]
}

/// Address of the system program (`11111111111111111111111111111111`): all zero.
pub open spec fn system_program_id() -> Seq<u8> {
    crate::address::zeros(32)
}

/// `pinocchio_token::ID`, the SPL Token program's address, as bytes.
///
/// The contract states the bytes that the crate's `declare_id!` string decodes to.
#[verifier::external_body]
pub(crate) fn spl_token_id_bytes() -> (r: [u8; 32])
    ensures
        r@ == spl_token_id(),
{
    pinocchio_token::ID.to_bytes()
}

/// `pinocchio_token_2022::ID`, the SPL Token-2022 program's address, as bytes.
///
/// The contract states the bytes that the crate's `declare_id!` string decodes to.
#[verifier::external_body]
pub(crate) fn spl_token_2022_id_bytes() -> (r: [u8; 32])
    ensures
        r@ == spl_token_2022_id(),
{
    pinocchio_token_2022::ID.to_bytes()
}

/// `pinocchio_system::ID`, the system program's address, as bytes.
///
/// The contract states the bytes that the crate's `declare_id!` string decodes to.
#[verifier::external_body]
pub(crate) fn system_program_id_bytes() -> (r: [u8; 32])
    ensures
        r@ == system_program_id(),
{
    pinocchio_system::ID.to_bytes()
}

} // verus!
