//! The plain values of the debugger engine's native interface.

use vstd::prelude::*;

verus! {

pub const DA_OK: i32 = 0;

pub const DA_ERR_INVALID_ARGUMENT: i32 = 1;

pub const DA_ERR_BUFFER_TOO_SMALL: i32 = 2;

pub const DA_ERR_INTERNAL: i32 = 500;

/// The version of the native interface.
#[allow(non_camel_case_types)]
#[derive(Clone, Copy, Debug, PartialEq, Eq, Structural)]
pub struct DA_Version {
    pub struct_size: u32,
    pub flags: u32,
    pub abi_major: u32,
    pub abi_minor: u32,
    pub abi_patch: u32,
}

} // verus!
