//! Event tracing: which native call a request makes, and what its reply
//! means.

use crate::etw_sys::{
    DA_EtwAdapterInfo, DA_EtwEventExtractionResult, DA_EtwSessionHandle, DA_EtwStackTraceStatus,
    DA_EtwVersion, DA_ETW_CAP_EVENT_STACK_TRACE, DA_ETW_CAP_FILE_TRACE,
    DA_ETW_CAP_PROCESS_TREE_FILTER, DA_ETW_CAP_REALTIME_CONSUME, DA_ETW_OK, DA_ETW_PRESET_FILE,
    DA_ETW_PRESET_IMAGE, DA_ETW_PRESET_NETWORK, DA_ETW_PRESET_PROCESS, DA_ETW_PRESET_REGISTRY,
    DA_ETW_PRESET_THREAD,
};
use crate::native::{last_error_text, LastError};
use crate::path::HostPath;
use crate::{native, text};
use vstd::prelude::*;
use vstd::string::*;

verus! {

/// The version of the native interface.
#[derive(Clone, Copy, Debug, PartialEq, Eq, Structural)]
pub struct NativeVersion {
    pub abi_major: u32,
    pub abi_minor: u32,
    pub abi_patch: u32,
}

/// What the native adapter can do.
#[derive(Clone, Copy, Debug, PartialEq, Eq, Structural)]
pub struct EtwCapabilities {
    pub realtime_consume: bool,
    pub file_trace: bool,
    pub process_tree_filter: bool,
    pub event_stack_trace: bool,
}

/// What the native adapter says of itself.
#[derive(Clone, Copy, Debug, PartialEq, Eq, Structural)]
pub struct EtwAdapterInfo {
    pub version: NativeVersion,
    pub capabilities: EtwCapabilities,
}

/// How many events were written.
#[derive(Clone, Copy, Debug, PartialEq, Eq, Structural)]
pub struct EtwEventExtractionResult {
    pub events_written: u32,
    pub files_written: u32,
    pub skipped_events: u32,
}

/// Whether events carry stacks.
#[derive(Clone, Copy, Debug, PartialEq, Eq, Structural)]
pub struct EtwStackTraceStatus {
    pub requested: bool,
    pub enabled: bool,
    pub provider_stack_enabled: bool,
    pub provider_stack_warning_count: u32,
    pub kernel_stack_enabled: bool,
    pub kernel_stack_warning_count: u32,
}

/// A set of event families, one bit each.
#[derive(Clone, Copy, Debug, PartialEq, Eq, Structural)]
pub struct EtwPresetFlags {
    bits: u32,
}

impl EtwPresetFlags {
    /// The bits of the set.
    pub closed spec fn value(&self) -> u32 {
        self.bits
    }

    pub fn process() -> (flags: Self)
        ensures
            flags.value() == DA_ETW_PRESET_PROCESS,
    {
        EtwPresetFlags { bits: DA_ETW_PRESET_PROCESS }
    }

    pub fn thread() -> (flags: Self)
        ensures
            flags.value() == DA_ETW_PRESET_THREAD,
    {
        EtwPresetFlags { bits: DA_ETW_PRESET_THREAD }
    }

    pub fn image() -> (flags: Self)
        ensures
            flags.value() == DA_ETW_PRESET_IMAGE,
    {
        EtwPresetFlags { bits: DA_ETW_PRESET_IMAGE }
    }

    pub fn file() -> (flags: Self)
        ensures
            flags.value() == DA_ETW_PRESET_FILE,
    {
        EtwPresetFlags { bits: DA_ETW_PRESET_FILE }
    }

    pub fn registry() -> (flags: Self)
        ensures
            flags.value() == DA_ETW_PRESET_REGISTRY,
    {
        EtwPresetFlags { bits: DA_ETW_PRESET_REGISTRY }
    }

    pub fn network() -> (flags: Self)
        ensures
            flags.value() == DA_ETW_PRESET_NETWORK,
    {
        EtwPresetFlags { bits: DA_ETW_PRESET_NETWORK }
    }

    /// Every family.
    pub fn all() -> (flags: Self)
        ensures
            flags.value() == DA_ETW_PRESET_PROCESS | DA_ETW_PRESET_THREAD | DA_ETW_PRESET_IMAGE
                | DA_ETW_PRESET_FILE | DA_ETW_PRESET_REGISTRY | DA_ETW_PRESET_NETWORK,
    {
        EtwPresetFlags {
            bits: DA_ETW_PRESET_PROCESS | DA_ETW_PRESET_THREAD | DA_ETW_PRESET_IMAGE
                | DA_ETW_PRESET_FILE | DA_ETW_PRESET_REGISTRY | DA_ETW_PRESET_NETWORK,
        }
    }

    /// No family.
    pub fn empty() -> (flags: Self)
        ensures
            flags.value() == 0,
    {
        EtwPresetFlags { bits: 0 }
    }

    pub fn bits(self) -> (bits: u32)
        ensures
            bits == self.value(),
    {
        self.bits
    }

    /// Adds the families of another set.
    pub fn insert(&mut self, other: Self)
        ensures
            final(self).value() == old(self).value() | other.value(),
    {
        self.bits = self.bits | other.bits;
    }
}

/// Adding a set keeps every family that was there, adds every family of the
/// other, adds nothing else, and adds nothing a second time.
pub proof fn law_inserted_families_are_the_union(left: u32, right: u32, family: u32)
    ensures
        (left | right) & family != 0 <==> (left & family != 0 || right & family != 0),
        (left | right) | right == left | right,
        left | right == right | left,
{
    assert((left | right) & family != 0 <==> (left & family != 0 || right & family != 0))
        by (bit_vector);
    assert((left | right) | right == left | right) by (bit_vector);
    assert(left | right == right | left) by (bit_vector);
}

/// Why event tracing gave nothing.
#[derive(Debug, PartialEq, Eq)]
pub enum EtwError {
    UnsupportedPlatform,
    Native { status: i32, message: String },
    EmptySessionName,
    EmptyTracePath,
    NonUtf8Path,
    /// The position of a NUL byte inside a text.
    InteriorNul(usize),
    NullSessionHandle,
}

/// The text of an error.
pub open spec fn etw_error_text(error: EtwError) -> Seq<char> {
    match error {
        EtwError::UnsupportedPlatform => "native ETW adapter is only available on Windows"@,
        EtwError::Native { status, message } => "native ETW call failed with status "@
            + text::signed_decimal(status as int) + ": "@ + message@,
        EtwError::EmptySessionName => "ETW session name must not be empty"@,
        EtwError::EmptyTracePath => "ETW trace path must not be empty"@,
        EtwError::NonUtf8Path => "ETW trace path must be valid UTF-8"@,
        EtwError::InteriorNul(_) => "input contains interior nul byte"@,
        EtwError::NullSessionHandle => "native returned a null ETW session handle"@,
    }
}

impl EtwError {
    /// The error as text.
    pub fn message(&self) -> (message: String)
        ensures
            message@ == etw_error_text(*self),
    {
        match self {
            EtwError::UnsupportedPlatform => "native ETW adapter is only available on Windows".to_owned(),
            EtwError::Native { status, message } => "native ETW call failed with status ".to_owned().concat(
                text::signed_decimal_text(*status as i64).as_str(),
            ).concat(": ").concat(message.as_str()),
            EtwError::EmptySessionName => "ETW session name must not be empty".to_owned(),
            EtwError::EmptyTracePath => "ETW trace path must not be empty".to_owned(),
            EtwError::NonUtf8Path => "ETW trace path must be valid UTF-8".to_owned(),
            EtwError::InteriorNul(_) => "input contains interior nul byte".to_owned(),
            EtwError::NullSessionHandle => "native returned a null ETW session handle".to_owned(),
        }
    }
}

/// A process whose events are wanted, as the native interface takes it: a
/// flag, and the process, or zero.
#[derive(Clone, Copy, Debug, PartialEq, Eq, Structural)]
pub struct RootPid {
    pub present: u32,
    pub pid: u32,
}

/// The native form of a process that may be given.
pub open spec fn root_pid_value(root_pid: Option<u32>) -> RootPid {
    match root_pid {
        Some(pid) => RootPid { present: 1, pid },
        None => RootPid { present: 0, pid: 0 },
    }
}

fn native_root_pid(root_pid: Option<u32>) -> (value: RootPid)
    ensures
        value == root_pid_value(root_pid),
{
    match root_pid {
        Some(pid) => RootPid { present: 1, pid },
        None => RootPid { present: 0, pid: 0 },
    }
}

/// A call of the native interface. Texts are C strings without their closing
/// NUL.
#[derive(Debug, PartialEq, Eq)]
pub enum EtwCall {
    WriteMinimalFileTrace { session_name: Vec<u8>, trace_path: Vec<u8>, preset_flags: u32 },
    StartFileTrace { session_name: Vec<u8>, trace_path: Vec<u8>, preset_flags: u32 },
    StartRealtimeConsumer {
        handle: DA_EtwSessionHandle,
        events_dir: Vec<u8>,
        preset_flags: u32,
        root_pid: RootPid,
    },
    ExtractFileEvents {
        trace_path: Vec<u8>,
        events_dir: Vec<u8>,
        preset_flags: u32,
        root_pid: RootPid,
    },
    FilterTraceFile {
        input_trace_path: Vec<u8>,
        output_trace_path: Vec<u8>,
        preset_flags: u32,
        root_pid: RootPid,
    },
}

/// The reply to a call: its status, and the adapter's last error, which counts
/// where the status is a failure.
#[derive(Debug)]
pub struct StatusReply {
    pub status: i32,
    pub last_error: LastError,
}

/// The error that a failed call gives.
pub open spec fn native_error(error: EtwError, reply: StatusReply) -> bool {
    &&& error matches EtwError::Native { status, message }
    &&& status == reply.status
    &&& message@ == native::last_error_view("da_etw_last_error"@, reply.last_error)
}

/// Whether a call succeeded.
pub fn status_to_result(reply: &StatusReply) -> (outcome: Result<(), EtwError>)
    ensures
        match outcome {
            Ok(()) => reply.status == DA_ETW_OK,
            Err(error) => reply.status != DA_ETW_OK && native_error(error, *reply),
        },
{
    if reply.status == DA_ETW_OK {
        return Ok(());
    }
    Err(
        EtwError::Native {
            status: reply.status,
            message: last_error_text("da_etw_last_error", &reply.last_error),
        },
    )
}

/// Why a text is no session name, if it is none.
pub open spec fn name_refusal(name: Seq<char>, error: EtwError) -> bool {
    if text::blank(name) {
        error == EtwError::EmptySessionName
    } else {
        error matches EtwError::InteriorNul(at) && text::first_nul(name, at as int)
    }
}

/// A text that is a session name.
pub open spec fn valid_name(name: Seq<char>) -> bool {
    !text::blank(name) && text::c_text(name)
}

/// Why a path is refused, if it is.
pub open spec fn path_refusal(path: crate::path::PathView, error: EtwError) -> bool {
    if path.text.len() == 0 {
        error == EtwError::EmptyTracePath
    } else if path.raw is Some {
        error == EtwError::NonUtf8Path
    } else {
        error matches EtwError::InteriorNul(at) && text::first_nul(path.text, at as int)
    }
}

/// A path that the native interface takes.
pub open spec fn valid_path(path: crate::path::PathView) -> bool {
    &&& path.text.len() > 0
    &&& path.raw is None
    &&& text::c_text(path.text)
}

/// The C string of a session name.
pub fn session_name_to_cstring(session_name: &str) -> (bytes: Result<Vec<u8>, EtwError>)
    ensures
        match bytes {
            Ok(found) => valid_name(session_name@) && text::is_c_string(found@, session_name@),
            Err(error) => !valid_name(session_name@) && name_refusal(session_name@, error),
        },
{
    if text::is_blank(session_name) {
        return Err(EtwError::EmptySessionName);
    }
    match text::c_bytes(session_name) {
        Ok(bytes) => Ok(bytes),
        Err(at) => {
            proof {
                text::lemma_first_nul(session_name@, at as int);
            }
            Err(EtwError::InteriorNul(at))
        },
    }
}

/// The C string of a path.
pub fn path_to_cstring(path: &HostPath) -> (bytes: Result<Vec<u8>, EtwError>)
    ensures
        match bytes {
            Ok(found) => valid_path(path@) && text::is_c_string(found@, path@.text),
            Err(error) => !valid_path(path@) && path_refusal(path@, error),
        },
{
    if path.is_empty() {
        return Err(EtwError::EmptyTracePath);
    }
    if path.raw.is_some() {
        return Err(EtwError::NonUtf8Path);
    }
    match text::c_bytes(path.text.as_str()) {
        Ok(bytes) => Ok(bytes),
        Err(at) => {
            proof {
                text::lemma_first_nul(path@.text, at as int);
            }
            Err(EtwError::InteriorNul(at))
        },
    }
}

/// A session that traces to a file, by its native handle. Zero stands for a
/// session that was given back.
#[derive(Debug)]
pub struct EtwFileSession {
    handle: DA_EtwSessionHandle,
}

/// The reply to a call that starts a session.
#[derive(Debug)]
pub struct StartReply {
    pub outcome: StatusReply,
    pub handle: DA_EtwSessionHandle,
}

/// The reply to a call for the stack status.
#[derive(Debug)]
pub struct StackTraceReply {
    pub outcome: StatusReply,
    pub status: DA_EtwStackTraceStatus,
}

/// What the stack status of a session is.
pub open spec fn stack_trace_value(status: DA_EtwStackTraceStatus) -> EtwStackTraceStatus {
    EtwStackTraceStatus {
        requested: status.requested != 0,
        enabled: status.enabled != 0,
        provider_stack_enabled: status.provider_stack_enabled != 0,
        provider_stack_warning_count: status.provider_stack_warning_count,
        kernel_stack_enabled: status.kernel_stack_enabled != 0,
        kernel_stack_warning_count: status.kernel_stack_warning_count,
    }
}

/// What the capability flags say.
pub open spec fn capabilities_value(flags: u32) -> EtwCapabilities {
    EtwCapabilities {
        realtime_consume: flags & DA_ETW_CAP_REALTIME_CONSUME != 0,
        file_trace: flags & DA_ETW_CAP_FILE_TRACE != 0,
        process_tree_filter: flags & DA_ETW_CAP_PROCESS_TREE_FILTER != 0,
        event_stack_trace: flags & DA_ETW_CAP_EVENT_STACK_TRACE != 0,
    }
}

/// The stack status in plain terms.
pub fn stack_trace_status_from_native(status: DA_EtwStackTraceStatus) -> (value: EtwStackTraceStatus)
    ensures
        value == stack_trace_value(status),
{
    EtwStackTraceStatus {
        requested: status.requested != 0,
        enabled: status.enabled != 0,
        provider_stack_enabled: status.provider_stack_enabled != 0,
        provider_stack_warning_count: status.provider_stack_warning_count,
        kernel_stack_enabled: status.kernel_stack_enabled != 0,
        kernel_stack_warning_count: status.kernel_stack_warning_count,
    }
}

/// The capability flags in plain terms.
pub fn capabilities_from_flags(flags: u32) -> (capabilities: EtwCapabilities)
    ensures
        capabilities == capabilities_value(flags),
{
    EtwCapabilities {
        realtime_consume: flags & DA_ETW_CAP_REALTIME_CONSUME != 0,
        file_trace: flags & DA_ETW_CAP_FILE_TRACE != 0,
        process_tree_filter: flags & DA_ETW_CAP_PROCESS_TREE_FILTER != 0,
        event_stack_trace: flags & DA_ETW_CAP_EVENT_STACK_TRACE != 0,
    }
}

/// Each capability is told by its own flag alone: flags for nothing give no
/// capability, and flags together give exactly what each gives.
pub proof fn law_capabilities_are_independent(left: u32, right: u32)
    ensures
        capabilities_value(0) == (EtwCapabilities {
            realtime_consume: false,
            file_trace: false,
            process_tree_filter: false,
            event_stack_trace: false,
        }),
        capabilities_value(left | right) == (EtwCapabilities {
            realtime_consume: capabilities_value(left).realtime_consume || capabilities_value(
                right,
            ).realtime_consume,
            file_trace: capabilities_value(left).file_trace || capabilities_value(right).file_trace,
            process_tree_filter: capabilities_value(left).process_tree_filter
                || capabilities_value(right).process_tree_filter,
            event_stack_trace: capabilities_value(left).event_stack_trace || capabilities_value(
                right,
            ).event_stack_trace,
        }),
{
    assert(0u32 & 1u32 == 0 && 0u32 & 2u32 == 0 && 0u32 & 4u32 == 0 && 0u32 & 8u32 == 0)
        by (bit_vector);
    law_inserted_families_are_the_union(left, right, 1);
    law_inserted_families_are_the_union(left, right, 2);
    law_inserted_families_are_the_union(left, right, 4);
    law_inserted_families_are_the_union(left, right, 8);
}

/// The session that a call started. No reply stands for a host without the
/// native adapter.
pub fn session_from_reply(reply: Option<StartReply>) -> (session: Result<EtwFileSession, EtwError>)
    ensures
        match (reply, session) {
            (None, Err(error)) => error == EtwError::UnsupportedPlatform,
            (Some(given), Ok(started)) => given.outcome.status == DA_ETW_OK && given.handle.value
                != 0 && started.handle_value() == given.handle,
            (Some(given), Err(error)) => if given.outcome.status != DA_ETW_OK {
                native_error(error, given.outcome)
            } else {
                given.handle.value == 0 && error == EtwError::NullSessionHandle
            },
            (None, Ok(_)) => false,
        },
{
    match reply {
        None => Err(EtwError::UnsupportedPlatform),
        Some(given) => {
            if let Err(error) = status_to_result(&given.outcome) {
                return Err(error);
            }
            if given.handle.value == 0 {
                return Err(EtwError::NullSessionHandle);
            }
            Ok(EtwFileSession { handle: given.handle })
        },
    }
}

/// Whether a call that gives nothing succeeded. No reply stands for a host
/// without the native adapter.
pub fn done_from_reply(reply: Option<StatusReply>) -> (outcome: Result<(), EtwError>)
    ensures
        match (reply, outcome) {
            (None, Err(error)) => error == EtwError::UnsupportedPlatform,
            (Some(given), Ok(())) => given.status == DA_ETW_OK,
            (Some(given), Err(error)) => given.status != DA_ETW_OK && native_error(error, given),
            (None, Ok(())) => false,
        },
{
    match reply {
        None => Err(EtwError::UnsupportedPlatform),
        Some(given) => status_to_result(&given),
    }
}

impl EtwFileSession {
    /// The native handle.
    pub closed spec fn handle_value(&self) -> DA_EtwSessionHandle {
        self.handle
    }

    /// The call that starts a session.
    pub fn start(session_name: &str, trace_path: &HostPath, preset_flags: EtwPresetFlags) -> (call:
        Result<EtwCall, EtwError>)
        ensures
            match call {
                Ok(EtwCall::StartFileTrace { session_name: name, trace_path: path, preset_flags: bits }) => {
                    &&& valid_name(session_name@)
                    &&& valid_path(trace_path@)
                    &&& text::is_c_string(name@, session_name@)
                    &&& text::is_c_string(path@, trace_path@.text)
                    &&& bits == preset_flags.value()
                },
                Ok(_) => false,
                Err(error) => if !valid_name(session_name@) {
                    name_refusal(session_name@, error)
                } else {
                    !valid_path(trace_path@) && path_refusal(trace_path@, error)
                },
            },
    {
        let name: Vec<u8> = match session_name_to_cstring(session_name) {
            Ok(bytes) => bytes,
            Err(error) => return Err(error),
        };
        let path: Vec<u8> = match path_to_cstring(trace_path) {
            Ok(bytes) => bytes,
            Err(error) => return Err(error),
        };
        Ok(
            EtwCall::StartFileTrace {
                session_name: name,
                trace_path: path,
                preset_flags: preset_flags.bits(),
            },
        )
    }

    /// The call that writes events while the session runs.
    pub fn start_realtime_consumer(
        &self,
        events_dir: &HostPath,
        preset_flags: EtwPresetFlags,
        root_pid: Option<u32>,
    ) -> (call: Result<EtwCall, EtwError>)
        ensures
            match call {
                Ok(
                    EtwCall::StartRealtimeConsumer {
                        handle,
                        events_dir: dir,
                        preset_flags: bits,
                        root_pid: root,
                    },
                ) => {
                    &&& valid_path(events_dir@)
                    &&& handle == self.handle_value()
                    &&& text::is_c_string(dir@, events_dir@.text)
                    &&& bits == preset_flags.value()
                    &&& root == root_pid_value(root_pid)
                },
                Ok(_) => false,
                Err(error) => !valid_path(events_dir@) && path_refusal(events_dir@, error),
            },
    {
        match path_to_cstring(events_dir) {
            Err(error) => Err(error),
            Ok(dir) => Ok(
                EtwCall::StartRealtimeConsumer {
                    handle: self.handle,
                    events_dir: dir,
                    preset_flags: preset_flags.bits(),
                    root_pid: native_root_pid(root_pid),
                },
            ),
        }
    }

    /// Whether events carry stacks. No reply stands for a host without the
    /// native adapter.
    pub fn stack_trace_status(&self, reply: Option<StackTraceReply>) -> (status: Result<
        EtwStackTraceStatus,
        EtwError,
    >)
        ensures
            match (reply, status) {
                (None, Err(error)) => error == EtwError::UnsupportedPlatform,
                (Some(given), Ok(found)) => given.outcome.status == DA_ETW_OK && found
                    == stack_trace_value(given.status),
                (Some(given), Err(error)) => given.outcome.status != DA_ETW_OK && native_error(
                    error,
                    given.outcome,
                ),
                (None, Ok(_)) => false,
            },
    {
        match reply {
            None => Err(EtwError::UnsupportedPlatform),
            Some(given) => match status_to_result(&given.outcome) {
                Err(error) => Err(error),
                Ok(()) => Ok(stack_trace_status_from_native(given.status)),
            },
        }
    }

    /// Gives the native handle back, to be stopped, the first time it is
    /// asked.
    pub fn release(&mut self) -> (handle: Option<DA_EtwSessionHandle>)
        ensures
            handle == (if old(self).handle_value().value == 0 {
                None::<DA_EtwSessionHandle>
            } else {
                Some(old(self).handle_value())
            }),
            final(self).handle_value().value == 0,
    {
        if self.handle.value == 0 {
            return None;
        }
        let handle: DA_EtwSessionHandle = self.handle;
        self.handle = DA_EtwSessionHandle { value: 0 };
        Some(handle)
    }

    /// Whether the session stopped. No reply stands for a host without the
    /// native adapter.
    pub fn stop(self, reply: Option<StatusReply>) -> (outcome: Result<(), EtwError>)
        ensures
            match (reply, outcome) {
                (None, Err(error)) => error == EtwError::UnsupportedPlatform,
                (Some(given), Ok(())) => given.status == DA_ETW_OK,
                (Some(given), Err(error)) => given.status != DA_ETW_OK && native_error(
                    error,
                    given,
                ),
                (None, Ok(())) => false,
            },
    {
        done_from_reply(reply)
    }
}

/// The reply to the call for the version.
#[derive(Debug)]
pub struct VersionReply {
    pub outcome: StatusReply,
    pub version: DA_EtwVersion,
}

/// The reply to the call for the capabilities.
#[derive(Debug)]
pub struct InfoReply {
    pub outcome: StatusReply,
    pub info: DA_EtwAdapterInfo,
}

/// The outcomes of asking for the version.
pub open spec fn version_outcome(
    outcome: Result<NativeVersion, EtwError>,
    reply: Option<VersionReply>,
) -> bool {
    match (reply, outcome) {
        (None, Err(error)) => error == EtwError::UnsupportedPlatform,
        (Some(given), Ok(found)) => {
            &&& given.outcome.status == DA_ETW_OK
            &&& found.abi_major == given.version.abi_major
            &&& found.abi_minor == given.version.abi_minor
            &&& found.abi_patch == given.version.abi_patch
        },
        (Some(given), Err(error)) => given.outcome.status != DA_ETW_OK && native_error(
            error,
            given.outcome,
        ),
        (None, Ok(_)) => false,
    }
}

/// The version of the native interface. No reply stands for a host without
/// the native adapter.
pub fn native_version(reply: Option<VersionReply>) -> (version: Result<NativeVersion, EtwError>)
    ensures
        version_outcome(version, reply),
{
    match reply {
        None => Err(EtwError::UnsupportedPlatform),
        Some(given) => match status_to_result(&given.outcome) {
            Err(error) => Err(error),
            Ok(()) => Ok(
                NativeVersion {
                    abi_major: given.version.abi_major,
                    abi_minor: given.version.abi_minor,
                    abi_patch: given.version.abi_patch,
                },
            ),
        },
    }
}

/// What the native adapter says of itself: its version first, and then what it
/// can do. No replies stand for a host without the native adapter.
pub fn adapter_info(version: Option<VersionReply>, info: Option<InfoReply>) -> (found: Result<
    EtwAdapterInfo,
    EtwError,
>)
    ensures
        match found {
            Ok(told) => {
                &&& version_outcome(Ok(told.version), version)
                &&& info matches Some(given)
                &&& given.outcome.status == DA_ETW_OK
                &&& told.capabilities == capabilities_value(given.info.capability_flags)
            },
            Err(error) => match version {
                None => error == EtwError::UnsupportedPlatform,
                Some(told) => if told.outcome.status != DA_ETW_OK {
                    native_error(error, told.outcome)
                } else {
                    match info {
                        None => error == EtwError::UnsupportedPlatform,
                        Some(given) => given.outcome.status != DA_ETW_OK && native_error(
                            error,
                            given.outcome,
                        ),
                    }
                },
            },
        },
{
    let version: NativeVersion = match native_version(version) {
        Ok(found) => found,
        Err(error) => return Err(error),
    };
    match info {
        None => Err(EtwError::UnsupportedPlatform),
        Some(given) => match status_to_result(&given.outcome) {
            Err(error) => Err(error),
            Ok(()) => Ok(
                EtwAdapterInfo {
                    version,
                    capabilities: capabilities_from_flags(given.info.capability_flags),
                },
            ),
        },
    }
}

/// The call that writes a minimal trace.
pub fn write_minimal_file_trace(
    session_name: &str,
    trace_path: &HostPath,
    preset_flags: EtwPresetFlags,
) -> (call: Result<EtwCall, EtwError>)
    ensures
        match call {
            Ok(
                EtwCall::WriteMinimalFileTrace {
                    session_name: name,
                    trace_path: path,
                    preset_flags: bits,
                },
            ) => {
                &&& valid_name(session_name@)
                &&& valid_path(trace_path@)
                &&& text::is_c_string(name@, session_name@)
                &&& text::is_c_string(path@, trace_path@.text)
                &&& bits == preset_flags.value()
            },
            Ok(_) => false,
            Err(error) => if !valid_name(session_name@) {
                name_refusal(session_name@, error)
            } else {
                !valid_path(trace_path@) && path_refusal(trace_path@, error)
            },
        },
{
    let name: Vec<u8> = match session_name_to_cstring(session_name) {
        Ok(bytes) => bytes,
        Err(error) => return Err(error),
    };
    let path: Vec<u8> = match path_to_cstring(trace_path) {
        Ok(bytes) => bytes,
        Err(error) => return Err(error),
    };
    Ok(
        EtwCall::WriteMinimalFileTrace {
            session_name: name,
            trace_path: path,
            preset_flags: preset_flags.bits(),
        },
    )
}

/// The call that extracts the events of a trace.
pub fn extract_file_events(
    trace_path: &HostPath,
    events_dir: &HostPath,
    preset_flags: EtwPresetFlags,
    root_pid: Option<u32>,
) -> (call: Result<EtwCall, EtwError>)
    ensures
        match call {
            Ok(
                EtwCall::ExtractFileEvents {
                    trace_path: path,
                    events_dir: dir,
                    preset_flags: bits,
                    root_pid: root,
                },
            ) => {
                &&& valid_path(trace_path@)
                &&& valid_path(events_dir@)
                &&& text::is_c_string(path@, trace_path@.text)
                &&& text::is_c_string(dir@, events_dir@.text)
                &&& bits == preset_flags.value()
                &&& root == root_pid_value(root_pid)
            },
            Ok(_) => false,
            Err(error) => if !valid_path(trace_path@) {
                path_refusal(trace_path@, error)
            } else {
                !valid_path(events_dir@) && path_refusal(events_dir@, error)
            },
        },
{
    let path: Vec<u8> = match path_to_cstring(trace_path) {
        Ok(bytes) => bytes,
        Err(error) => return Err(error),
    };
    let dir: Vec<u8> = match path_to_cstring(events_dir) {
        Ok(bytes) => bytes,
        Err(error) => return Err(error),
    };
    Ok(
        EtwCall::ExtractFileEvents {
            trace_path: path,
            events_dir: dir,
            preset_flags: preset_flags.bits(),
            root_pid: native_root_pid(root_pid),
        },
    )
}

/// The call that keeps the wanted events of a trace.
pub fn filter_trace_file(
    input_trace_path: &HostPath,
    output_trace_path: &HostPath,
    preset_flags: EtwPresetFlags,
    root_pid: Option<u32>,
) -> (call: Result<EtwCall, EtwError>)
    ensures
        match call {
            Ok(
                EtwCall::FilterTraceFile {
                    input_trace_path: input,
                    output_trace_path: output,
                    preset_flags: bits,
                    root_pid: root,
                },
            ) => {
                &&& valid_path(input_trace_path@)
                &&& valid_path(output_trace_path@)
                &&& text::is_c_string(input@, input_trace_path@.text)
                &&& text::is_c_string(output@, output_trace_path@.text)
                &&& bits == preset_flags.value()
                &&& root == root_pid_value(root_pid)
            },
            Ok(_) => false,
            Err(error) => if !valid_path(input_trace_path@) {
                path_refusal(input_trace_path@, error)
            } else {
                !valid_path(output_trace_path@) && path_refusal(output_trace_path@, error)
            },
        },
{
    let input: Vec<u8> = match path_to_cstring(input_trace_path) {
        Ok(bytes) => bytes,
        Err(error) => return Err(error),
    };
    let output: Vec<u8> = match path_to_cstring(output_trace_path) {
        Ok(bytes) => bytes,
        Err(error) => return Err(error),
    };
    Ok(
        EtwCall::FilterTraceFile {
            input_trace_path: input,
            output_trace_path: output,
            preset_flags: preset_flags.bits(),
            root_pid: native_root_pid(root_pid),
        },
    )
}

/// The reply to a call that writes events.
#[derive(Debug)]
pub struct ExtractionReply {
    pub outcome: StatusReply,
    pub result: DA_EtwEventExtractionResult,
}

/// How many events a call wrote. No reply stands for a host without the native
/// adapter.
pub fn extraction_from_reply(reply: Option<ExtractionReply>) -> (result: Result<
    EtwEventExtractionResult,
    EtwError,
>)
    ensures
        match (reply, result) {
            (None, Err(error)) => error == EtwError::UnsupportedPlatform,
            (Some(given), Ok(found)) => {
                &&& given.outcome.status == DA_ETW_OK
                &&& found.events_written == given.result.events_written
                &&& found.files_written == given.result.files_written
                &&& found.skipped_events == given.result.skipped_events
            },
            (Some(given), Err(error)) => given.outcome.status != DA_ETW_OK && native_error(
                error,
                given.outcome,
            ),
            (None, Ok(_)) => false,
        },
{
    match reply {
        None => Err(EtwError::UnsupportedPlatform),
        Some(given) => match status_to_result(&given.outcome) {
            Err(error) => Err(error),
            Ok(()) => Ok(
                EtwEventExtractionResult {
                    events_written: given.result.events_written,
                    files_written: given.result.files_written,
                    skipped_events: given.result.skipped_events,
                },
            ),
        },
    }
}

} // verus!
