//! Instruction discriminators: the first 8 bytes of `sha256("global:<snake_case_name>")`.
use vstd::prelude::*;

verus! {

pub const CREATE_METADATA: [u8; 8] = [0x1e, 0x23, 0x75, 0x86, 0xc4, 0x8b, 0x2c, 0x19];

pub const UPDATE_METADATA: [u8; 8] = [0xaa, 0xb6, 0x2b, 0xef, 0x61, 0x4e, 0xe1, 0xba];

pub const SET_UPDATE_AUTHORITY: [u8; 8] = [0xa6, 0xc6, 0xba, 0xff, 0xd9, 0xaa, 0x67, 0x9b];

pub const SET_IMMUTABLE: [u8; 8] = [0x87, 0xe7, 0x05, 0xd1, 0xd2, 0x6b, 0x4d, 0x83];

pub const VERIFY_CREATOR: [u8; 8] = [0x34, 0x11, 0x60, 0x84, 0x47, 0x04, 0x55, 0xc2];

pub const UNVERIFY_CREATOR: [u8; 8] = [0x6b, 0xb2, 0x39, 0x27, 0x69, 0x73, 0x70, 0x98];

pub const CLOSE_METADATA: [u8; 8] = [0x0a, 0xdc, 0xc4, 0x8a, 0x13, 0x3c, 0xcc, 0x82];

} // verus!
