//! Sessions of the native debugger engine: which native call a request makes,
//! and what its reply means.

use crate::dbgeng_sys::{DA_Version, DA_OK};
use crate::native::{last_error_text, LastError, LentText};
use crate::path::HostPath;
use crate::{native, text};
use vstd::prelude::*;
use vstd::string::*;

verus! {

/// The version of the native interface.
#[derive(Clone, Copy, Debug, PartialEq, Eq, Structural)]
pub struct NativeVersion {
    pub abi_major: u32,
    pub abi_minor: u32,
    pub abi_patch: u32,
}

/// Why the debugger engine gave nothing.
#[derive(Debug, PartialEq, Eq)]
pub enum DbgEngError {
    UnsupportedPlatform,
    Native { status: i32, message: String },
    NullSessionHandle,
    NullText,
    EmptyPath,
    InvalidPid,
    NonUtf8Path,
    EmptyCommand,
    EmptySymbolPath,
    EmptyMemoryRead,
    /// The position of a NUL byte inside a text.
    InteriorNul(usize),
}

/// The text of an error.
pub open spec fn dbgeng_error_text(error: DbgEngError) -> Seq<char> {
    match error {
        DbgEngError::UnsupportedPlatform => "native adapter is only available on Windows"@,
        DbgEngError::Native { status, message } => "native call failed with status "@
            + text::signed_decimal(status as int) + ": "@ + message@,
        DbgEngError::NullSessionHandle => "native returned a null session handle"@,
        DbgEngError::NullText => "native returned a null text pointer"@,
        DbgEngError::EmptyPath => "dump path must not be empty"@,
        DbgEngError::InvalidPid => "attach pid must be greater than zero"@,
        DbgEngError::NonUtf8Path => "dump path must be valid UTF-8"@,
        DbgEngError::EmptyCommand => "debug command must not be empty"@,
        DbgEngError::EmptySymbolPath => "symbol path must not be empty"@,
        DbgEngError::EmptyMemoryRead => "memory read length must be greater than zero"@,
        DbgEngError::InteriorNul(_) => "input contains interior nul byte"@,
    }
}

impl DbgEngError {
    /// The error as text.
    pub fn message(&self) -> (message: String)
        ensures
            message@ == dbgeng_error_text(*self),
    {
        match self {
            DbgEngError::UnsupportedPlatform => "native adapter is only available on Windows".to_owned(),
            DbgEngError::Native { status, message } => "native call failed with status ".to_owned().concat(
                text::signed_decimal_text(*status as i64).as_str(),
            ).concat(": ").concat(message.as_str()),
            DbgEngError::NullSessionHandle => "native returned a null session handle".to_owned(),
            DbgEngError::NullText => "native returned a null text pointer".to_owned(),
            DbgEngError::EmptyPath => "dump path must not be empty".to_owned(),
            DbgEngError::InvalidPid => "attach pid must be greater than zero".to_owned(),
            DbgEngError::NonUtf8Path => "dump path must be valid UTF-8".to_owned(),
            DbgEngError::EmptyCommand => "debug command must not be empty".to_owned(),
            DbgEngError::EmptySymbolPath => "symbol path must not be empty".to_owned(),
            DbgEngError::EmptyMemoryRead => "memory read length must be greater than zero".to_owned(),
            DbgEngError::InteriorNul(_) => "input contains interior nul byte".to_owned(),
        }
    }
}

/// A call of the native interface. Texts are C strings without their closing
/// NUL.
#[derive(Debug, PartialEq, Eq)]
pub enum DbgEngCall {
    OpenDump { path: Vec<u8> },
    AttachProcess { pid: u32 },
    Execute { handle: u64, command: Vec<u8> },
    AddSymbols { handle: u64, symbol_path: Vec<u8>, reload: i32 },
    ReadVirtual { handle: u64, address: u64, length: u32 },
}

/// The reply to a call: its status, and the adapter's last error, which counts
/// where the status is a failure.
#[derive(Debug)]
pub struct StatusReply {
    pub status: i32,
    pub last_error: LastError,
}

/// The error that a failed call gives.
pub open spec fn native_error(error: DbgEngError, reply: StatusReply) -> bool {
    &&& error matches DbgEngError::Native { status, message }
    &&& status == reply.status
    &&& message@ == native::last_error_view("da_dbgeng_last_error"@, reply.last_error)
}

/// The text of the error that a failed call gives.
pub open spec fn native_error_text(reply: StatusReply) -> Seq<char> {
    "native call failed with status "@ + text::signed_decimal(reply.status as int) + ": "@
        + native::last_error_view("da_dbgeng_last_error"@, reply.last_error)
}

/// Whether a call succeeded.
pub fn status_to_result(reply: &StatusReply) -> (outcome: Result<(), DbgEngError>)
    ensures
        match outcome {
            Ok(()) => reply.status == DA_OK,
            Err(error) => reply.status != DA_OK && native_error(error, *reply),
        },
{
    if reply.status == DA_OK {
        return Ok(());
    }
    Err(
        DbgEngError::Native {
            status: reply.status,
            message: last_error_text("da_dbgeng_last_error", &reply.last_error),
        },
    )
}

/// A C string, or the NUL inside the text.
pub open spec fn c_string_outcome(outcome: Result<Vec<u8>, DbgEngError>, text: Seq<char>) -> bool {
    match outcome {
        Ok(bytes) => text::is_c_string(bytes@, text),
        Err(DbgEngError::InteriorNul(at)) => text::first_nul(text, at as int),
        Err(_) => false,
    }
}

fn to_c_string(value: &str) -> (bytes: Result<Vec<u8>, DbgEngError>)
    ensures
        c_string_outcome(bytes, value@),
{
    match text::c_bytes(value) {
        Ok(bytes) => Ok(bytes),
        Err(at) => Err(DbgEngError::InteriorNul(at)),
    }
}

/// The C string of a dump path.
pub fn path_to_cstring(path: &HostPath) -> (bytes: Result<Vec<u8>, DbgEngError>)
    ensures
        if path@.text.len() == 0 {
            bytes == Err::<Vec<u8>, DbgEngError>(DbgEngError::EmptyPath)
        } else if path@.raw is Some {
            bytes == Err::<Vec<u8>, DbgEngError>(DbgEngError::NonUtf8Path)
        } else {
            c_string_outcome(bytes, path@.text)
        },
{
    if path.is_empty() {
        return Err(DbgEngError::EmptyPath);
    }
    if path.raw.is_some() {
        return Err(DbgEngError::NonUtf8Path);
    }
    to_c_string(path.text.as_str())
}

/// The C string of a debugger command.
pub fn command_to_cstring(command: &str) -> (bytes: Result<Vec<u8>, DbgEngError>)
    ensures
        if text::blank(command@) {
            bytes == Err::<Vec<u8>, DbgEngError>(DbgEngError::EmptyCommand)
        } else {
            c_string_outcome(bytes, command@)
        },
{
    if text::is_blank(command) {
        return Err(DbgEngError::EmptyCommand);
    }
    to_c_string(command)
}

/// The C string of a symbol path.
pub fn symbol_path_to_cstring(symbol_path: &str) -> (bytes: Result<Vec<u8>, DbgEngError>)
    ensures
        if text::blank(symbol_path@) {
            bytes == Err::<Vec<u8>, DbgEngError>(DbgEngError::EmptySymbolPath)
        } else {
            c_string_outcome(bytes, symbol_path@)
        },
{
    if text::is_blank(symbol_path) {
        return Err(DbgEngError::EmptySymbolPath);
    }
    to_c_string(symbol_path)
}

/// The bytes that a lent text holds; it must point to some, where it has a
/// length.
pub fn text_view_to_bytes(view: LentText) -> (bytes: Result<Vec<u8>, DbgEngError>)
    ensures
        match (view.data, bytes) {
            (None, Err(error)) => view.len > 0 && error == DbgEngError::NullText,
            (None, Ok(found)) => view.len == 0 && found@.len() == 0,
            (Some(data), Ok(found)) => if view.len == 0 {
                found@.len() == 0
            } else {
                found@ == data@
            },
            (Some(_), Err(_)) => false,
        },
{
    match view.data {
        None => if view.len > 0 {
            Err(DbgEngError::NullText)
        } else {
            Ok(Vec::new())
        },
        Some(data) => if view.len == 0 {
            Ok(Vec::new())
        } else {
            Ok(data)
        },
    }
}

/// The text that a lent text holds, with U+FFFD in place of what is not UTF-8.
pub fn text_view_to_string(view: LentText) -> (found: Result<String, DbgEngError>)
    ensures
        match (view.data, found) {
            (None, Err(error)) => view.len > 0 && error == DbgEngError::NullText,
            (None, Ok(text)) => view.len == 0 && text@ == text::lossy_text(seq![]),
            (Some(data), Ok(text)) => text@ == text::lossy_text(
                if view.len == 0 {
                    seq![]
                } else {
                    data@
                },
            ),
            (Some(_), Err(_)) => false,
        },
{
    match text_view_to_bytes(view) {
        Err(error) => Err(error),
        Ok(bytes) => {
            assert(bytes@.len() == 0 ==> bytes@ =~= seq![]);
            Ok(text::utf8_lossy(bytes.as_slice()))
        },
    }
}

/// A session of the debugger engine, by its native handle. Zero stands for a
/// session that was given back.
#[derive(Debug)]
pub struct DbgEngSession {
    handle: u64,
}

/// The reply to a call that opens a session.
#[derive(Debug)]
pub struct OpenReply {
    pub outcome: StatusReply,
    pub handle: u64,
}

/// The reply to a call that gives a text or bytes.
#[derive(Debug)]
pub struct TextReply {
    pub outcome: StatusReply,
    pub view: LentText,
}

/// The session that a call opened.
pub fn session_from_status(reply: OpenReply) -> (session: Result<DbgEngSession, DbgEngError>)
    ensures
        match session {
            Ok(opened) => reply.outcome.status == DA_OK && reply.handle != 0
                && opened.handle_value() == reply.handle,
            Err(error) => if reply.outcome.status != DA_OK {
                native_error(error, reply.outcome)
            } else {
                reply.handle == 0 && error == DbgEngError::NullSessionHandle
            },
        },
{
    if let Err(error) = status_to_result(&reply.outcome) {
        return Err(error);
    }
    if reply.handle == 0 {
        return Err(DbgEngError::NullSessionHandle);
    }
    Ok(DbgEngSession { handle: reply.handle })
}

/// What the reply to a text call means.
pub open spec fn text_outcome(outcome: Result<String, DbgEngError>, reply: Option<TextReply>) -> bool {
    match reply {
        None => outcome == Err::<String, DbgEngError>(DbgEngError::UnsupportedPlatform),
        Some(given) => if given.outcome.status != DA_OK {
            outcome matches Err(error) && native_error(error, given.outcome)
        } else if given.view.data is None && given.view.len > 0 {
            outcome == Err::<String, DbgEngError>(DbgEngError::NullText)
        } else {
            outcome matches Ok(found) && found@ == text::lossy_text(
                if given.view.len == 0 {
                    seq![]
                } else {
                    given.view.data->0@
                },
            )
        },
    }
}

/// The text that a call gave. No reply stands for a host without the native
/// adapter.
pub fn text_from_reply(reply: Option<TextReply>) -> (found: Result<String, DbgEngError>)
    ensures
        text_outcome(found, reply),
{
    match reply {
        None => Err(DbgEngError::UnsupportedPlatform),
        Some(given) => {
            if let Err(error) = status_to_result(&given.outcome) {
                return Err(error);
            }
            text_view_to_string(given.view)
        },
    }
}

/// The bytes that a call gave. No reply stands for a host without the native
/// adapter.
pub fn bytes_from_reply(reply: Option<TextReply>) -> (found: Result<Vec<u8>, DbgEngError>)
    ensures
        match reply {
            None => found == Err::<Vec<u8>, DbgEngError>(DbgEngError::UnsupportedPlatform),
            Some(given) => if given.outcome.status != DA_OK {
                found matches Err(error) && native_error(error, given.outcome)
            } else if given.view.data is None && given.view.len > 0 {
                found == Err::<Vec<u8>, DbgEngError>(DbgEngError::NullText)
            } else {
                found matches Ok(bytes) && bytes@ == (if given.view.len == 0 {
                    seq![]
                } else {
                    given.view.data->0@
                })
            },
        },
{
    match reply {
        None => Err(DbgEngError::UnsupportedPlatform),
        Some(given) => {
            if let Err(error) = status_to_result(&given.outcome) {
                return Err(error);
            }
            let found: Result<Vec<u8>, DbgEngError> = text_view_to_bytes(given.view);
            assert(found matches Ok(bytes) && bytes@.len() == 0 ==> found->Ok_0@ =~= seq![]);
            found
        },
    }
}

/// The session that a call opened. No reply stands for a host without the
/// native adapter.
pub fn session_from_reply(reply: Option<OpenReply>) -> (session: Result<DbgEngSession, DbgEngError>)
    ensures
        match (reply, session) {
            (None, Err(error)) => error == DbgEngError::UnsupportedPlatform,
            (Some(given), Ok(opened)) => given.outcome.status == DA_OK && given.handle != 0
                && opened.handle_value() == given.handle,
            (Some(given), Err(error)) => if given.outcome.status != DA_OK {
                native_error(error, given.outcome)
            } else {
                given.handle == 0 && error == DbgEngError::NullSessionHandle
            },
            (None, Ok(_)) => false,
        },
{
    match reply {
        None => Err(DbgEngError::UnsupportedPlatform),
        Some(given) => session_from_status(given),
    }
}

impl DbgEngSession {
    /// The native handle.
    pub closed spec fn handle_value(&self) -> u64 {
        self.handle
    }

    /// The call that opens a dump.
    pub fn open_dump(path: &HostPath) -> (call: Result<DbgEngCall, DbgEngError>)
        ensures
            match call {
                Ok(DbgEngCall::OpenDump { path: bytes }) => {
                    &&& path@.text.len() > 0
                    &&& path@.raw is None
                    &&& text::is_c_string(bytes@, path@.text)
                },
                Ok(_) => false,
                Err(error) => if path@.text.len() == 0 {
                    error == DbgEngError::EmptyPath
                } else if path@.raw is Some {
                    error == DbgEngError::NonUtf8Path
                } else {
                    error matches DbgEngError::InteriorNul(at) && text::first_nul(
                        path@.text,
                        at as int,
                    )
                },
            },
    {
        match path_to_cstring(path) {
            Ok(bytes) => Ok(DbgEngCall::OpenDump { path: bytes }),
            Err(error) => Err(error),
        }
    }

    /// The call that attaches to a process.
    pub fn attach(pid: u32) -> (call: Result<DbgEngCall, DbgEngError>)
        ensures
            call == (if pid == 0 {
                Err::<DbgEngCall, DbgEngError>(DbgEngError::InvalidPid)
            } else {
                Ok::<DbgEngCall, DbgEngError>(DbgEngCall::AttachProcess { pid })
            }),
    {
        if pid == 0 {
            return Err(DbgEngError::InvalidPid);
        }
        Ok(DbgEngCall::AttachProcess { pid })
    }

    /// The call that runs a command.
    pub fn execute(&self, command: &str) -> (call: Result<DbgEngCall, DbgEngError>)
        ensures
            match call {
                Ok(DbgEngCall::Execute { handle, command: bytes }) => {
                    &&& !text::blank(command@)
                    &&& handle == self.handle_value()
                    &&& text::is_c_string(bytes@, command@)
                },
                Ok(_) => false,
                Err(error) => if text::blank(command@) {
                    error == DbgEngError::EmptyCommand
                } else {
                    error matches DbgEngError::InteriorNul(at) && text::first_nul(
                        command@,
                        at as int,
                    )
                },
            },
    {
        match command_to_cstring(command) {
            Ok(bytes) => Ok(DbgEngCall::Execute { handle: self.handle, command: bytes }),
            Err(error) => Err(error),
        }
    }

    /// The call that appends to the symbol path.
    pub fn add_symbols(&self, symbol_path: &str, reload: bool) -> (call: Result<
        DbgEngCall,
        DbgEngError,
    >)
        ensures
            match call {
                Ok(DbgEngCall::AddSymbols { handle, symbol_path: bytes, reload: flag }) => {
                    &&& !text::blank(symbol_path@)
                    &&& handle == self.handle_value()
                    &&& text::is_c_string(bytes@, symbol_path@)
                    &&& flag == if reload {
                        1i32
                    } else {
                        0i32
                    }
                },
                Ok(_) => false,
                Err(error) => if text::blank(symbol_path@) {
                    error == DbgEngError::EmptySymbolPath
                } else {
                    error matches DbgEngError::InteriorNul(at) && text::first_nul(
                        symbol_path@,
                        at as int,
                    )
                },
            },
    {
        match symbol_path_to_cstring(symbol_path) {
            Ok(bytes) => Ok(
                DbgEngCall::AddSymbols {
                    handle: self.handle,
                    symbol_path: bytes,
                    reload: if reload {
                        1
                    } else {
                        0
                    },
                },
            ),
            Err(error) => Err(error),
        }
    }

    /// The call that reads memory.
    pub fn read_memory(&self, address: u64, length: u32) -> (call: Result<DbgEngCall, DbgEngError>)
        ensures
            call == (if length == 0 {
                Err::<DbgEngCall, DbgEngError>(DbgEngError::EmptyMemoryRead)
            } else {
                Ok::<DbgEngCall, DbgEngError>(
                    DbgEngCall::ReadVirtual { handle: self.handle_value(), address, length },
                )
            }),
    {
        if length == 0 {
            return Err(DbgEngError::EmptyMemoryRead);
        }
        Ok(DbgEngCall::ReadVirtual { handle: self.handle, address, length })
    }

    /// Gives the native handle back, to be closed, the first time it is asked.
    pub fn release(&mut self) -> (handle: Option<u64>)
        ensures
            handle == (if old(self).handle_value() == 0 {
                None::<u64>
            } else {
                Some(old(self).handle_value())
            }),
            final(self).handle_value() == 0,
    {
        if self.handle == 0 {
            return None;
        }
        let handle: u64 = self.handle;
        self.handle = 0;
        Some(handle)
    }
}

/// Why a dump is not opened, as text, if it is not.
pub open spec fn dump_refusal(path: crate::path::PathView) -> Option<Seq<char>> {
    if path.text.len() == 0 {
        Some("dump path must not be empty"@)
    } else if path.raw is Some {
        Some("dump path must be valid UTF-8"@)
    } else if !text::c_text(path.text) {
        Some("input contains interior nul byte"@)
    } else {
        None
    }
}

/// Why a command is not run, as text, if it is not.
pub open spec fn command_refusal(command: Seq<char>) -> Option<Seq<char>> {
    if text::blank(command) {
        Some("debug command must not be empty"@)
    } else if !text::c_text(command) {
        Some("input contains interior nul byte"@)
    } else {
        None
    }
}

/// Why a symbol path is not appended, as text, if it is not.
pub open spec fn symbol_refusal(symbol_path: Seq<char>) -> Option<Seq<char>> {
    if text::blank(symbol_path) {
        Some("symbol path must not be empty"@)
    } else if !text::c_text(symbol_path) {
        Some("input contains interior nul byte"@)
    } else {
        None
    }
}

/// Why no session was opened, as text, if none was.
pub open spec fn open_refusal(reply: Option<OpenReply>) -> Option<Seq<char>> {
    match reply {
        None => Some("native adapter is only available on Windows"@),
        Some(given) => if given.outcome.status != DA_OK {
            Some(native_error_text(given.outcome))
        } else if given.handle == 0 {
            Some("native returned a null session handle"@)
        } else {
            None
        },
    }
}

/// Why a call gave no text, as text, if it gave none.
pub open spec fn text_refusal(reply: Option<TextReply>) -> Option<Seq<char>> {
    match reply {
        None => Some("native adapter is only available on Windows"@),
        Some(given) => if given.outcome.status != DA_OK {
            Some(native_error_text(given.outcome))
        } else if given.view.data is None && given.view.len > 0 {
            Some("native returned a null text pointer"@)
        } else {
            None
        },
    }
}

/// The bytes that a call gave.
pub open spec fn given_bytes(reply: TextReply) -> Seq<u8> {
    if reply.view.len == 0 {
        seq![]
    } else {
        reply.view.data->0@
    }
}

/// The reply to the call for the version.
#[derive(Debug)]
pub struct VersionReply {
    pub outcome: StatusReply,
    pub version: DA_Version,
}

/// The version of the native interface. No reply stands for a host without
/// the native adapter.
pub fn native_version(reply: Option<VersionReply>) -> (version: Result<NativeVersion, DbgEngError>)
    ensures
        match (reply, version) {
            (None, Err(error)) => error == DbgEngError::UnsupportedPlatform,
            (Some(given), Ok(found)) => {
                &&& given.outcome.status == DA_OK
                &&& found.abi_major == given.version.abi_major
                &&& found.abi_minor == given.version.abi_minor
                &&& found.abi_patch == given.version.abi_patch
            },
            (Some(given), Err(error)) => given.outcome.status != DA_OK && native_error(
                error,
                given.outcome,
            ),
            (None, Ok(_)) => false,
        },
{
    match reply {
        None => Err(DbgEngError::UnsupportedPlatform),
        Some(given) => match status_to_result(&given.outcome) {
            Err(error) => Err(error),
            Ok(()) => Ok(
                NativeVersion {
                    abi_major: given.version.abi_major,
                    abi_minor: given.version.abi_minor,
                    abi_patch: given.version.abi_patch,
                },
            ),
        },
    }
}

} // verus!
