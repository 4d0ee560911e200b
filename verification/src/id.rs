//! This program's address, `ArBZw7qnKJhMycbcf7UoNke8GALbGvQrEqvQFampB8wa`.
use vstd::prelude::*;

use crate::address::Address;

verus! {

broadcast use vstd::array::group_array_axioms;

/// The bytes of this program's address.
pub open spec fn program_id() -> Seq<u8> {
    seq![
        0x92u8, 0x52, 0x97, 0x4e, 0xb0, 0x04, 0x2e, 0x38, 0x58, 0x49, 0x54, 0xef, 0x0f, 0x52, 0x35,
        0x87, 0x58, 0x50, 0x82, 0x81, 0xd1, 0xc0, 0x22, 0x34, 0xd5, 0x97, 0xd7, 0x19, 0x34, 0x0d,
        0x1d, 0x99,
    ]
}

/// The bytes of this program's address.
pub const ID_BYTES: [u8; 32] = [
    0x92, 0x52, 0x97, 0x4e, 0xb0, 0x04, 0x2e, 0x38, 0x58, 0x49, 0x54, 0xef, 0x0f, 0x52, 0x35, 0x87,
    0x58, 0x50, 0x82, 0x81, 0xd1, 0xc0, 0x22, 0x34, 0xd5, 0x97, 0xd7, 0x19, 0x34, 0x0d, 0x1d, 0x99,
];

/// This program's address.
pub fn id() -> (r: Address)
    ensures
        r@ == program_id(),
{
    let r = Address::new_from_array(ID_BYTES);
    assert(ID_BYTES@ =~= program_id());
    r
}

/// Whether `address` is this program's address.
pub fn check_id(address: &Address) -> (r: bool)
    ensures
        r == (address@ == program_id()),
{
    *address == id()
}

} // verus!
