//! The plain values of the reverse engineering native interface.

use vstd::prelude::*;

verus! {

pub const DA_IDA_OK: i32 = 0;

pub const DA_IDA_ERR_INVALID_ARGUMENT: i32 = 1;

pub const DA_IDA_ERR_BUFFER_TOO_SMALL: i32 = 2;

pub const DA_IDA_ERR_NOT_FOUND: i32 = 3;

pub const DA_IDA_ERR_DYNAMIC_LOAD: i32 = 4;

pub const DA_IDA_ERR_IDA: i32 = 5;

pub const DA_IDA_ERR_INTERNAL: i32 = 500;

/// The version of the native interface, and of what is behind it.
#[allow(non_camel_case_types)]
#[derive(Clone, Copy, Debug, PartialEq, Eq, Structural)]
pub struct DA_IdaVersion {
    pub struct_size: u32,
    pub flags: u32,
    pub abi_major: u32,
    pub abi_minor: u32,
    pub abi_patch: u32,
    pub ida_major: u32,
    pub ida_minor: u32,
    pub ida_build: u32,
}

/// A text that the native adapter lends: its bytes, where it points to any.
#[allow(non_camel_case_types)]
#[derive(Debug, PartialEq, Eq)]
pub struct DA_IdaTextView {
    pub data: Option<Vec<u8>>,
}

/// A function that was looked up.
#[allow(non_camel_case_types)]
#[derive(Debug, PartialEq, Eq)]
pub struct DA_IdaFunctionLookup {
    pub struct_size: u32,
    pub flags: u32,
    pub runtime_address: u64,
    pub runtime_module_base: u64,
    pub rva: u64,
    pub ida_image_base: u64,
    pub ida_ea: u64,
    pub function_start: u64,
    pub function_end: u64,
    pub found: i32,
    pub function_name: DA_IdaTextView,
}

/// What a core function gave.
#[allow(non_camel_case_types)]
#[derive(Debug, PartialEq, Eq)]
pub struct DA_IdaCoreResult {
    pub struct_size: u32,
    pub flags: u32,
    pub result_json: DA_IdaTextView,
}

/// The handle of a native session. Zero stands for none.
#[allow(non_camel_case_types)]
#[derive(Clone, Copy, Debug, PartialEq, Eq, Structural)]
pub struct DA_IdaSessionHandle {
    pub value: u64,
}

} // verus!
