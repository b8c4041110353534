//! The plain values of the event tracing native interface.

use vstd::prelude::*;

verus! {

pub const DA_ETW_OK: i32 = 0;

pub const DA_ETW_ERR_INVALID_ARGUMENT: i32 = 1;

pub const DA_ETW_ERR_NOT_IMPLEMENTED: i32 = 2;

pub const DA_ETW_ERR_BUFFER_TOO_SMALL: i32 = 3;

pub const DA_ETW_ERR_INTERNAL: i32 = 500;

pub const DA_ETW_CAP_REALTIME_CONSUME: u32 = 1;

pub const DA_ETW_CAP_FILE_TRACE: u32 = 2;

pub const DA_ETW_CAP_PROCESS_TREE_FILTER: u32 = 4;

pub const DA_ETW_CAP_EVENT_STACK_TRACE: u32 = 8;

pub const DA_ETW_PRESET_PROCESS: u32 = 1;

pub const DA_ETW_PRESET_THREAD: u32 = 2;

pub const DA_ETW_PRESET_IMAGE: u32 = 4;

pub const DA_ETW_PRESET_FILE: u32 = 8;

pub const DA_ETW_PRESET_REGISTRY: u32 = 16;

pub const DA_ETW_PRESET_NETWORK: u32 = 32;

/// The version of the native interface.
#[allow(non_camel_case_types)]
#[derive(Clone, Copy, Debug, PartialEq, Eq, Structural)]
pub struct DA_EtwVersion {
    pub struct_size: u32,
    pub flags: u32,
    pub abi_major: u32,
    pub abi_minor: u32,
    pub abi_patch: u32,
}

/// What the native adapter can do.
#[allow(non_camel_case_types)]
#[derive(Clone, Copy, Debug, PartialEq, Eq, Structural)]
pub struct DA_EtwAdapterInfo {
    pub struct_size: u32,
    pub flags: u32,
    pub capability_flags: u32,
}

/// How many events were written.
#[allow(non_camel_case_types)]
#[derive(Clone, Copy, Debug, PartialEq, Eq, Structural)]
pub struct DA_EtwEventExtractionResult {
    pub struct_size: u32,
    pub events_written: u32,
    pub files_written: u32,
    pub skipped_events: u32,
}

/// Whether events carry stacks.
#[allow(non_camel_case_types)]
#[derive(Clone, Copy, Debug, PartialEq, Eq, Structural)]
pub struct DA_EtwStackTraceStatus {
    pub struct_size: u32,
    pub flags: u32,
    pub requested: u32,
    pub enabled: u32,
    pub provider_stack_enabled: u32,
    pub provider_stack_warning_count: u32,
    pub kernel_stack_enabled: u32,
    pub kernel_stack_warning_count: u32,
}

impl Default for DA_EtwStackTraceStatus {
    fn default() -> (status: Self)
        ensures
            status == (DA_EtwStackTraceStatus {
                struct_size: 0,
                flags: 0,
                requested: 0,
                enabled: 0,
                provider_stack_enabled: 0,
                provider_stack_warning_count: 0,
                kernel_stack_enabled: 0,
                kernel_stack_warning_count: 0,
            }),
    {
        DA_EtwStackTraceStatus {
            struct_size: 0,
            flags: 0,
            requested: 0,
            enabled: 0,
            provider_stack_enabled: 0,
            provider_stack_warning_count: 0,
            kernel_stack_enabled: 0,
            kernel_stack_warning_count: 0,
        }
    }
}

/// The handle of a native session. Zero stands for none.
#[allow(non_camel_case_types)]
#[derive(Clone, Copy, Debug, PartialEq, Eq, Structural)]
pub struct DA_EtwSessionHandle {
    pub value: u64,
}

} // verus!
