//! Laws on what errors say: each names what went wrong, and carries the texts
//! and numbers that it was made with.

use crate::adapter::AdapterError;
use crate::dbgeng::DbgEngError;
use crate::debug::DebugError;
use crate::dispatch::CoreError;
use crate::etw::EtwError;
use crate::ida::IdaError;
use crate::mcp::McpError;
use crate::model::InvalidId;
use crate::recording::RecordingError;
use crate::runtime::RuntimeConfigError;
use crate::worker_protocol::{LineError, WorkerProtocolError};
use crate::workspace::WorkspaceError;
use crate::text;
use vstd::prelude::*;
use vstd::string::*;

verus! {

/// An adapter's error says why, and names the adapter and the capability that
/// it lacks.
pub proof fn law_adapter_errors_say_why(error: AdapterError, message: String)
    requires
        call_ensures(AdapterError::message, (&error,), message),
    ensures
        error matches AdapterError::InvalidInput(reason) ==> message@ == "invalid adapter input: "@
            + reason@,
        error matches AdapterError::UnsupportedCapability { adapter, capability } ==> message@
            == "unsupported capability `"@ + capability@ + "` for adapter `"@ + adapter@ + "`"@,
        error matches AdapterError::NativeFailure(reason) ==> message@
            == "native adapter failure: "@ + reason@,
        error matches AdapterError::Io(reason) ==> message@ == "io failure: "@ + reason@,
        error matches AdapterError::Internal(reason) ==> message@ == "internal adapter failure: "@
            + reason@,
{
}

/// The error of an operation is that of the adapter or of the workspace, or
/// names the adapter that is not registered.
pub proof fn law_operation_errors_say_why(
    error: CoreError,
    shown: &str,
    message: String,
    adapter: AdapterError,
    of_adapter: String,
    workspace: WorkspaceError,
    of_workspace: String,
)
    requires
        call_ensures(CoreError::message, (&error, shown), message),
        call_ensures(AdapterError::message, (&adapter,), of_adapter),
        call_ensures(WorkspaceError::message, (&workspace, shown), of_workspace),
    ensures
        error matches CoreError::AdapterNotRegistered(name) ==> message@ == "adapter `"@ + name@
            + "` is not registered"@,
        error == CoreError::Adapter(adapter) ==> message@ == of_adapter@,
        error == CoreError::Workspace(workspace) ==> message@ == of_workspace@,
{
}

/// An error of the debugger engine says why, and tells the status and the
/// message of a native failure.
pub proof fn law_engine_errors_say_why(error: DbgEngError, message: String)
    requires
        call_ensures(DbgEngError::message, (&error,), message),
    ensures
        match error {
            DbgEngError::UnsupportedPlatform => message@
                == "native adapter is only available on Windows"@,
            DbgEngError::Native { status, message: told } => message@
                == "native call failed with status "@ + text::signed_decimal(status as int) + ": "@
                + told@,
            DbgEngError::NullSessionHandle => message@ == "native returned a null session handle"@,
            DbgEngError::NullText => message@ == "native returned a null text pointer"@,
            DbgEngError::EmptyPath => message@ == "dump path must not be empty"@,
            DbgEngError::InvalidPid => message@ == "attach pid must be greater than zero"@,
            DbgEngError::NonUtf8Path => message@ == "dump path must be valid UTF-8"@,
            DbgEngError::EmptyCommand => message@ == "debug command must not be empty"@,
            DbgEngError::EmptySymbolPath => message@ == "symbol path must not be empty"@,
            DbgEngError::EmptyMemoryRead => message@
                == "memory read length must be greater than zero"@,
            DbgEngError::InteriorNul(_) => message@ == "input contains interior nul byte"@,
        },
{
}

/// An error of event tracing says why, and tells the status and the message of
/// a native failure.
pub proof fn law_tracing_errors_say_why(error: EtwError, message: String)
    requires
        call_ensures(EtwError::message, (&error,), message),
    ensures
        match error {
            EtwError::UnsupportedPlatform => message@
                == "native ETW adapter is only available on Windows"@,
            EtwError::Native { status, message: told } => message@
                == "native ETW call failed with status "@ + text::signed_decimal(status as int)
                + ": "@ + told@,
            EtwError::EmptySessionName => message@ == "ETW session name must not be empty"@,
            EtwError::EmptyTracePath => message@ == "ETW trace path must not be empty"@,
            EtwError::NonUtf8Path => message@ == "ETW trace path must be valid UTF-8"@,
            EtwError::InteriorNul(_) => message@ == "input contains interior nul byte"@,
            EtwError::NullSessionHandle => message@
                == "native returned a null ETW session handle"@,
        },
{
}

/// An error of a reverse session says why, names the field that is refused,
/// and tells the status and the message of a native failure.
pub proof fn law_reverse_errors_say_why(error: IdaError, message: String)
    requires
        call_ensures(IdaError::message, (&error,), message),
    ensures
        match error {
            IdaError::UnsupportedPlatform => message@
                == "IDA adapter is only supported on Windows"@,
            IdaError::EmptyPath { field } => message@ == field@ + " must not be empty"@,
            IdaError::NulByte { field } => message@ == field@ + " contains a NUL byte"@,
            IdaError::Native { status, message: told } => message@ == "native IDA adapter error "@
                + text::signed_decimal(status as int) + ": "@ + told@,
            IdaError::DynamicLoad(reason) => message@ == "failed to load native IDA adapter: "@
                + reason@,
            IdaError::WorkerStopped => message@ == "IDA session worker stopped"@,
        },
{
}

/// A refused debug target or command is told why.
pub proof fn law_debug_refusals_say_why(error: DebugError, message: String)
    requires
        call_ensures(DebugError::message, (&error,), message),
    ensures
        match error {
            DebugError::EmptyPath => message@ == "debug target path must not be empty"@,
            DebugError::PathContainsNul => message@ == "debug target path contains a NUL byte"@,
            DebugError::InvalidPid => message@ == "attach pid must be greater than zero"@,
            DebugError::AttachCurrentProcess => message@
                == "refusing to attach to the current DbgAtlas process"@,
            DebugError::ArgumentContainsNul => message@ == "launch argument contains a NUL byte"@,
            DebugError::EmptyCommand => message@ == "debug command must not be empty"@,
        },
{
}

/// A refused recording is told why.
pub proof fn law_recording_refusals_say_why(error: RecordingError, message: String)
    requires
        call_ensures(RecordingError::message, (&error,), message),
    ensures
        match error {
            RecordingError::EmptyExecutable => message@
                == "recording launch executable must not be empty"@,
            RecordingError::InvalidAttachPid => message@ == "recording attach pid must not be zero"@,
            RecordingError::EmptyPresets => message@ == "recording preset list must not be empty"@,
            RecordingError::ControlCharacters => message@
                == "recording arguments must not contain control characters"@,
            RecordingError::InvalidTtdTimeout => message@
                == "TTD timeout_ms must be greater than zero"@,
            RecordingError::InvalidTtdMaxFile => message@
                == "TTD max_file_mb must be greater than zero"@,
            RecordingError::TtdRingFileTooLarge => message@
                == "TTD ring max_file_mb must be at most 32768"@,
            RecordingError::TtdFileTooLarge => message@
                == "TTD max_file_mb must be at most 1048576"@,
            RecordingError::EmptyTtdExecutable => message@
                == "TTD launch executable must not be empty"@,
            RecordingError::InvalidTtdAttachPid => message@ == "TTD attach pid must not be zero"@,
            RecordingError::EmptyTtdMonitorProgram => message@
                == "TTD monitor program must not be empty"@,
            RecordingError::InvalidTtdMonitorProgram => message@
                == "TTD monitor program must be a file name or an absolute path"@,
            RecordingError::EmptyTtdCommandLineFilter => message@
                == "TTD monitor cmd_line_filter must not be empty"@,
            RecordingError::TtdModulesTooLarge => message@ == "TTD modules list is too large"@,
        },
{
}

/// A refused configuration is told why, by the field, the address, the key or
/// the version that is refused.
pub proof fn law_configuration_refusals_say_why(error: RuntimeConfigError, message: String)
    requires
        call_ensures(RuntimeConfigError::message, (&error,), message),
    ensures
        match error {
            RuntimeConfigError::UnsupportedVersion { actual, expected } => message@
                == "unsupported runtime config version "@ + text::decimal(actual as nat)
                + "; expected "@ + text::decimal(expected as nat),
            RuntimeConfigError::NonLoopbackBind(bind) => message@
                == "server bind address must be loopback: "@ + bind.shown@,
            RuntimeConfigError::EmptyValue { field } => message@ == field@ + " must not be empty"@,
            RuntimeConfigError::ControlCharacters { field } => message@ == field@
                + " contains unsupported control characters"@,
            RuntimeConfigError::UnsupportedProxyKey(key) => message@
                == "proxy.env key is not supported: "@ + key@,
            RuntimeConfigError::ParseToml(reason) => message@ == "parse runtime config: "@
                + reason@,
            RuntimeConfigError::Io { path, source } => message@ == "read runtime config "@
                + path@.text + ": "@ + source@,
        },
{
}

/// An error of the server names the method or the tool that is unknown, and
/// says otherwise what it was told.
pub proof fn law_server_errors_say_why(error: McpError, message: String)
    requires
        call_ensures(McpError::message, (&error,), message),
    ensures
        match error {
            McpError::UnknownMethod(method) => message@ == "unknown MCP method `"@ + method@ + "`"@,
            McpError::UnknownTool(tool) => message@ == "unknown DbgAtlas tool `"@ + tool@ + "`"@,
            McpError::InvalidToolArguments => message@ == "tool arguments must be a JSON object"@,
            McpError::Service(reason) => message@ == reason@,
            McpError::Workspace(reason) => message@ == reason@,
            McpError::Json(reason) => message@ == reason@,
            McpError::Io(reason) => message@ == reason@,
        },
{
}

/// An error of the worker's protocol tells both versions, and says otherwise
/// what the reader said.
pub proof fn law_protocol_errors_say_why(
    error: WorkerProtocolError,
    message: String,
    line: LineError,
    of_line: String,
)
    requires
        call_ensures(WorkerProtocolError::message, (&error,), message),
        call_ensures(LineError::message, (&line,), of_line),
    ensures
        error matches WorkerProtocolError::UnsupportedVersion { actual, expected } ==> message@
            == "unsupported worker protocol version "@ + text::decimal(actual as nat)
            + "; expected "@ + text::decimal(expected as nat),
        error matches WorkerProtocolError::Json(reason) ==> message@ == reason@,
        line is Closed ==> of_line@ == "pipe closed before request"@,
        line is TooLarge ==> of_line@ == "request line is too large"@,
        line matches LineError::NotUtf8(reason) ==> of_line@ == reason@,
{
}

/// A refused identifier is told why.
pub proof fn law_identifier_refusals_say_why(error: InvalidId, message: String)
    requires
        call_ensures(InvalidId::message, (&error,), message),
    ensures
        message@ == "invalid DbgAtlas id: "@ + error@,
{
}

} // verus!
