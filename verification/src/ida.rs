//! Reverse engineering sessions: what the worker of a session does next, and
//! what the native replies mean.

use crate::ida_sys::{DA_IdaCoreResult, DA_IdaFunctionLookup, DA_IdaSessionHandle, DA_IdaTextView, DA_IDA_OK};
use crate::json::{read_json, write_compact, Json};
use crate::path::{HostPath, JoinedPath};
use crate::{json, path, text};
use vstd::prelude::*;
use vstd::string::*;

verus! {

/// Why a reverse engineering session gave nothing.
#[derive(Debug, PartialEq, Eq)]
pub enum IdaError {
    UnsupportedPlatform,
    EmptyPath { field: &'static str },
    NulByte { field: &'static str },
    Native { status: i32, message: String },
    DynamicLoad(String),
    WorkerStopped,
}

/// The text of an error.
pub open spec fn ida_error_text(error: IdaError) -> Seq<char> {
    match error {
        IdaError::UnsupportedPlatform => "IDA adapter is only supported on Windows"@,
        IdaError::EmptyPath { field } => field@ + " must not be empty"@,
        IdaError::NulByte { field } => field@ + " contains a NUL byte"@,
        IdaError::Native { status, message } => "native IDA adapter error "@ + text::signed_decimal(
            status as int,
        ) + ": "@ + message@,
        IdaError::DynamicLoad(reason) => "failed to load native IDA adapter: "@ + reason@,
        IdaError::WorkerStopped => "IDA session worker stopped"@,
    }
}

impl IdaError {
    /// The error as text.
    pub fn message(&self) -> (message: String)
        ensures
            message@ == ida_error_text(*self),
    {
        match self {
            IdaError::UnsupportedPlatform => "IDA adapter is only supported on Windows".to_owned(),
            IdaError::EmptyPath { field } => (*field).to_owned().concat(" must not be empty"),
            IdaError::NulByte { field } => (*field).to_owned().concat(" contains a NUL byte"),
            IdaError::Native { status, message } => "native IDA adapter error ".to_owned().concat(
                text::signed_decimal_text(*status as i64).as_str(),
            ).concat(": ").concat(message.as_str()),
            IdaError::DynamicLoad(reason) => "failed to load native IDA adapter: ".to_owned().concat(
                reason.as_str(),
            ),
            IdaError::WorkerStopped => "IDA session worker stopped".to_owned(),
        }
    }
}

/// The version of the native interface, and of what is behind it.
#[derive(Clone, Copy, Debug, PartialEq, Eq, Structural)]
pub struct NativeVersion {
    pub abi_major: u32,
    pub abi_minor: u32,
    pub abi_patch: u32,
    pub ida_major: u32,
    pub ida_minor: u32,
    pub ida_build: u32,
}

/// The version that the adapter is built against, on a host that has it.
pub fn native_version(supported: bool) -> (version: Result<NativeVersion, IdaError>)
    ensures
        version == (if supported {
            Ok::<NativeVersion, IdaError>(
                NativeVersion {
                    abi_major: 0,
                    abi_minor: 1,
                    abi_patch: 0,
                    ida_major: 0,
                    ida_minor: 0,
                    ida_build: 0,
                },
            )
        } else {
            Err::<NativeVersion, IdaError>(IdaError::UnsupportedPlatform)
        }),
{
    if !supported {
        return Err(IdaError::UnsupportedPlatform);
    }
    Ok(
        NativeVersion {
            abi_major: 0,
            abi_minor: 1,
            abi_patch: 0,
            ida_major: 0,
            ida_minor: 0,
            ida_build: 0,
        },
    )
}

/// A function that was looked up.
#[derive(Debug, PartialEq, Eq)]
pub struct FunctionLookup {
    pub runtime_address: u64,
    pub runtime_module_base: u64,
    pub rva: u64,
    pub ida_image_base: u64,
    pub ida_ea: u64,
    pub function_start: u64,
    pub function_end: u64,
    pub function_name: String,
    pub found: bool,
}

/// What a core function gave.
#[derive(Debug, PartialEq, Eq)]
pub struct CoreFunctionResult {
    pub function: String,
    pub result: Json,
    pub warnings: Vec<String>,
}

/// What a session is asked.
#[derive(Debug, PartialEq, Eq)]
pub enum IdaCommand {
    Lookup { runtime_address: u64, runtime_module_base: u64, ida_image_base: u64 },
    Core { function: String, arguments: Json },
    Close,
}

/// What a session answers.
#[derive(Debug, PartialEq, Eq)]
pub enum CommandReply {
    Lookup(Result<FunctionLookup, IdaError>),
    Core(Result<CoreFunctionResult, IdaError>),
    Close(Result<(), IdaError>),
}

/// What the native adapter says of its last error: how many bytes it needs,
/// the status of asking for it, and the buffer that it filled.
#[derive(Debug)]
pub struct ErrorReply {
    pub required: usize,
    pub status: i32,
    pub buffer: Vec<u8>,
}

/// The bytes without one closing NUL.
pub open spec fn without_closing_nul(bytes: Seq<u8>) -> Seq<u8> {
    if bytes.len() > 0 && bytes.last() == 0 {
        bytes.drop_last()
    } else {
        bytes
    }
}

/// The text of the native adapter's last error.
pub open spec fn native_message(reply: ErrorReply) -> Seq<char> {
    if reply.required == 0 || reply.status != DA_IDA_OK {
        "unknown native IDA error"@
    } else {
        text::lossy_text(without_closing_nul(reply.buffer@))
    }
}

/// The error of a native call that failed.
pub open spec fn is_native_error(error: IdaError, failed: i32, reply: ErrorReply) -> bool {
    &&& error matches IdaError::Native { status, message }
    &&& status == failed
    &&& message@ == native_message(reply)
}

/// The error of a native call that failed.
pub fn native_error(status: i32, reply: ErrorReply) -> (error: IdaError)
    ensures
        is_native_error(error, status, reply),
{
    if reply.required == 0 || reply.status != DA_IDA_OK {
        return IdaError::Native { status, message: "unknown native IDA error".to_owned() };
    }
    let mut buffer: Vec<u8> = reply.buffer;
    let ghost given = buffer@;
    if buffer.len() > 0 && buffer[buffer.len() - 1] == 0 {
        buffer.pop();
    }
    assert(buffer@ =~= without_closing_nul(given));
    IdaError::Native { status, message: text::utf8_lossy(buffer.as_slice()) }
}

/// The text that the native adapter lent, empty where it lent none.
pub open spec fn lent_text(view: DA_IdaTextView) -> Seq<char> {
    match view.data {
        None => seq![],
        Some(bytes) => text::lossy_text(bytes@),
    }
}

/// The text that the native adapter lent, empty where it lent none.
pub fn take_text_view(view: DA_IdaTextView) -> (found: String)
    ensures
        found@ == lent_text(view),
{
    match view.data {
        None => {
            proof {
                reveal_strlit("");
            }
            let empty: String = "".to_owned();
            assert(empty@ =~= seq![]);
            empty
        },
        Some(bytes) => text::utf8_lossy(bytes.as_slice()),
    }
}

/// Why a path is refused, if it is.
pub open spec fn path_refusal(path: path::PathView, field: &'static str) -> Option<IdaError> {
    if path.text.len() == 0 {
        Some(IdaError::EmptyPath { field })
    } else if path.text.contains('\0') {
        Some(IdaError::NulByte { field })
    } else {
        None
    }
}

/// Accepts a path that is not empty and holds no NUL.
pub fn validate_path(path: &HostPath, field: &'static str) -> (verdict: Result<(), IdaError>)
    ensures
        verdict == (match path_refusal(path@, field) {
            Some(error) => Err::<(), IdaError>(error),
            None => Ok::<(), IdaError>(()),
        }),
{
    if path.is_empty() {
        return Err(IdaError::EmptyPath { field });
    }
    if text::contains_char(path.text.as_str(), '\0') {
        return Err(IdaError::NulByte { field });
    }
    Ok(())
}

/// The reply to a lookup.
#[derive(Debug)]
pub struct LookupReply {
    pub status: i32,
    pub error: ErrorReply,
    pub lookup: DA_IdaFunctionLookup,
}

/// What the reply to a lookup means.
pub open spec fn lookup_outcome(
    outcome: Result<FunctionLookup, IdaError>,
    reply: LookupReply,
) -> bool {
    if reply.status != DA_IDA_OK {
        outcome matches Err(error) && is_native_error(error, reply.status, reply.error)
    } else {
        &&& outcome matches Ok(found)
        &&& found.runtime_address == reply.lookup.runtime_address
        &&& found.runtime_module_base == reply.lookup.runtime_module_base
        &&& found.rva == reply.lookup.rva
        &&& found.ida_image_base == reply.lookup.ida_image_base
        &&& found.ida_ea == reply.lookup.ida_ea
        &&& found.function_start == reply.lookup.function_start
        &&& found.function_end == reply.lookup.function_end
        &&& found.function_name@ == lent_text(reply.lookup.function_name)
        &&& found.found == (reply.lookup.found != 0)
    }
}

/// The function that a lookup found.
pub fn native_lookup(reply: LookupReply) -> (outcome: Result<FunctionLookup, IdaError>)
    ensures
        lookup_outcome(outcome, reply),
{
    if reply.status != DA_IDA_OK {
        return Err(native_error(reply.status, reply.error));
    }
    let function_name: String = take_text_view(reply.lookup.function_name);
    Ok(
        FunctionLookup {
            runtime_address: reply.lookup.runtime_address,
            runtime_module_base: reply.lookup.runtime_module_base,
            rva: reply.lookup.rva,
            ida_image_base: reply.lookup.ida_image_base,
            ida_ea: reply.lookup.ida_ea,
            function_start: reply.lookup.function_start,
            function_end: reply.lookup.function_end,
            function_name,
            found: reply.lookup.found != 0,
        },
    )
}

/// The C strings of a core call.
#[derive(Debug, PartialEq, Eq)]
pub struct CoreCall {
    pub function: Vec<u8>,
    pub arguments: Vec<u8>,
}

/// The outcomes of preparing a core call.
pub open spec fn core_call_outcome(
    outcome: Result<CoreCall, IdaError>,
    function: Seq<char>,
    arguments: json::JsonView,
) -> bool {
    if !text::c_text(function) {
        outcome matches Err(IdaError::NulByte { field }) && field@ == "function"@
    } else {
        match json::compact_text(arguments) {
            Err(reason) => outcome matches Err(IdaError::Native { status, message }) && status == 1
                && message@ == reason,
            Ok(written) => if !text::c_text(written) {
                outcome matches Err(IdaError::NulByte { field }) && field@ == "arguments"@
            } else {
                &&& outcome matches Ok(call)
                &&& text::is_c_string(call.function@, function)
                &&& text::is_c_string(call.arguments@, written)
            },
        }
    }
}

/// Prepares a core call: the function, and the arguments as a document.
pub fn core_call(function: &str, arguments: &Json) -> (call: Result<CoreCall, IdaError>)
    ensures
        core_call_outcome(call, function@, arguments@),
{
    let function_c: Vec<u8> = match text::c_bytes(function) {
        Ok(bytes) => bytes,
        Err(at) => {
            proof {
                text::lemma_first_nul(function@, at as int);
            }
            return Err(IdaError::NulByte { field: "function" });
        },
    };
    let written: String = match write_compact(arguments) {
        Ok(written) => written,
        Err(reason) => return Err(IdaError::Native { status: 1, message: reason }),
    };
    let arguments_c: Vec<u8> = match text::c_bytes(written.as_str()) {
        Ok(bytes) => bytes,
        Err(at) => {
            proof {
                text::lemma_first_nul(written@, at as int);
            }
            return Err(IdaError::NulByte { field: "arguments" });
        },
    };
    Ok(CoreCall { function: function_c, arguments: arguments_c })
}

/// The texts among documents, in order.
pub open spec fn texts_among(items: Seq<json::JsonView>) -> Seq<Seq<char>>
    decreases items.len(),
{
    if items.len() == 0 {
        seq![]
    } else {
        match items.last() {
            json::JsonView::Text(text) => texts_among(items.drop_last()).push(text),
            _ => texts_among(items.drop_last()),
        }
    }
}

/// The warnings that a result lists.
pub open spec fn warnings_of(result: json::JsonView) -> Seq<Seq<char>> {
    match result {
        json::JsonView::Object(fields) => match json::field_of(fields, "warnings"@) {
            Some(json::JsonView::Array(items)) => texts_among(items),
            _ => seq![],
        },
        _ => seq![],
    }
}

/// The warnings that a result lists.
pub fn warnings_in(result: &Json) -> (warnings: Vec<String>)
    ensures
        path::text_views(warnings@) == warnings_of(result@),
{
    let mut warnings: Vec<String> = Vec::new();
    assert(path::text_views(warnings@) =~= seq![]);
    match result.get("warnings") {
        Some(Json::Array(items)) => {
            let ghost all = Json::Array(*items)@->Array_0;
            assert(all.take(0) =~= seq![]);
            let mut i: usize = 0;
            while i < items.len()
                invariant
                    i <= items.len(),
                    all.len() == items@.len(),
                    forall|k: int|
                        0 <= k < all.len() ==> #[trigger] all[k] == json::json_view(items@[k]),
                    path::text_views(warnings@) == texts_among(all.take(i as int)),
                decreases items.len() - i,
            {
                let ghost before = path::text_views(warnings@);
                assert(all.take(i + 1).drop_last() =~= all.take(i as int));
                assert(all.take(i + 1).last() == all[i as int]);
                if let Json::Text(text) = &items[i] {
                    warnings.push(text.clone());
                    assert(path::text_views(warnings@) =~= before.push(text@));
                }
                i = i + 1;
            }
            assert(all.take(i as int) =~= all);
        },
        _ => {},
    }
    warnings
}

/// The reply to a core call.
#[derive(Debug)]
pub struct CoreReply {
    pub status: i32,
    pub error: ErrorReply,
    pub result: DA_IdaCoreResult,
}

/// What the reply to a core call means.
pub open spec fn core_outcome(
    outcome: Result<CoreFunctionResult, IdaError>,
    function: String,
    reply: CoreReply,
) -> bool {
    if reply.status != DA_IDA_OK {
        outcome matches Err(error) && is_native_error(error, reply.status, reply.error)
    } else {
        match json::parsed(lent_text(reply.result.result_json)) {
            Err(reason) => outcome matches Err(IdaError::Native { status, message }) && status == 1
                && message@ == "native IDA core result is not valid JSON: "@ + reason,
            Ok(document) => {
                &&& outcome matches Ok(found)
                &&& found.function == function
                &&& found.result@ == document
                &&& path::text_views(found.warnings@) == warnings_of(document)
            },
        }
    }
}

/// What the document of a core result means, once it was read.
pub fn core_result(function: String, document: Result<Json, String>) -> (outcome: Result<
    CoreFunctionResult,
    IdaError,
>)
    ensures
        match document {
            Err(reason) => outcome matches Err(IdaError::Native { status, message }) && status == 1
                && message@ == "native IDA core result is not valid JSON: "@ + reason@,
            Ok(result) => outcome matches Ok(found) && found.function == function && found.result
                == result && path::text_views(found.warnings@) == warnings_of(result@),
        },
{
    match document {
        Err(reason) => Err(
            IdaError::Native {
                status: 1,
                message: "native IDA core result is not valid JSON: ".to_owned().concat(
                    reason.as_str(),
                ),
            },
        ),
        Ok(result) => {
            let warnings: Vec<String> = warnings_in(&result);
            Ok(CoreFunctionResult { function, result, warnings })
        },
    }
}

/// What a core function gave.
pub fn native_core(function: String, reply: CoreReply) -> (outcome: Result<
    CoreFunctionResult,
    IdaError,
>)
    ensures
        core_outcome(outcome, function, reply),
{
    if reply.status != DA_IDA_OK {
        return Err(native_error(reply.status, reply.error));
    }
    let written: String = take_text_view(reply.result.result_json);
    core_result(function, read_json(written.as_str()))
}

/// The library that is looked for, by its position: `ida.dll`, then
/// `idalib.dll`.
pub open spec fn dll_name(dll: usize) -> Seq<char> {
    if dll == 0 {
        "ida.dll"@
    } else {
        "idalib.dll"@
    }
}

fn dll_text(dll: usize) -> (name: &'static str)
    ensures
        name@ == dll_name(dll),
{
    if dll == 0 {
        "ida.dll"
    } else {
        "idalib.dll"
    }
}

/// Where the worker of a session stands.
#[derive(Debug, PartialEq, Eq)]
pub enum SessionPhase {
    CheckingInstallDir,
    CheckingDll { dll: usize },
    Loading,
    Opening { install_dir: Vec<u8>, database_path: Vec<u8> },
    Idle { handle: DA_IdaSessionHandle },
    LookingUp {
        handle: DA_IdaSessionHandle,
        runtime_address: u64,
        runtime_module_base: u64,
        ida_image_base: u64,
    },
    RunningCore { handle: DA_IdaSessionHandle, function: String, call: CoreCall },
    Closing { handle: DA_IdaSessionHandle, answer: bool },
    Finished,
}

/// What the worker hears.
#[derive(Debug)]
pub enum SessionEvent {
    /// Whether the install directory is there.
    InstallDir { present: bool },
    /// Whether a library is there; `shown` is how the host shows its path.
    Dll { present: bool, shown: String },
    /// Whether the native adapter was loaded.
    Loaded(Result<(), IdaError>),
    /// What opening the native session gave.
    Opened { status: i32, handle: DA_IdaSessionHandle, error: ErrorReply },
    /// A command came.
    Command(IdaCommand),
    /// No command will come.
    CommandsEnded,
    /// What the lookup gave.
    LookedUp(LookupReply),
    /// What the core function gave.
    CoreReplied(CoreReply),
    /// What closing the native session gave.
    Closed { status: i32, error: ErrorReply },
}

/// What the worker says: whether the session is ready, and the answer to a
/// command.
#[derive(Debug)]
pub struct SessionOutput {
    pub ready: Option<Result<(), IdaError>>,
    pub reply: Option<CommandReply>,
}

/// What the worker does next.
#[derive(Debug, PartialEq, Eq)]
pub enum HostAction {
    ProbeInstallDir(HostPath),
    ProbeDll(JoinedPath),
    LoadAdapter(HostPath),
    OpenSession { install_dir: Vec<u8>, database_path: Vec<u8> },
    AwaitCommand,
    LookUp {
        handle: DA_IdaSessionHandle,
        runtime_address: u64,
        runtime_module_base: u64,
        ida_image_base: u64,
    },
    RunCore { handle: DA_IdaSessionHandle, function: Vec<u8>, arguments: Vec<u8> },
    CloseSession { handle: DA_IdaSessionHandle },
    Exit,
}

/// A session, as its worker sees it.
#[derive(Debug)]
pub struct IdaSession {
    pub install_dir: HostPath,
    pub database_path: HostPath,
    pub phase: SessionPhase,
}

/// Nothing is said.
pub open spec fn says_nothing(output: SessionOutput) -> bool {
    output.ready is None && output.reply is None
}

/// The worker ends before the session is ready, and says why.
pub open spec fn fails(after: SessionPhase, output: SessionOutput) -> bool {
    &&& after is Finished
    &&& output.ready matches Some(Err(_))
    &&& output.reply is None
}

/// One turn of the worker of a session: what it hears, where it stands then,
/// and what it says. What does not belong to where it stands changes nothing.
pub open spec fn turns(
    install_dir: path::PathView,
    database_path: path::PathView,
    before: SessionPhase,
    event: SessionEvent,
    after: SessionPhase,
    output: SessionOutput,
) -> bool {
    match (before, event) {
        (SessionPhase::CheckingInstallDir, SessionEvent::InstallDir { present }) => if present {
            after == (SessionPhase::CheckingDll { dll: 0 }) && says_nothing(output)
        } else {
            &&& fails(after, output)
            &&& output.ready->0->Err_0 matches IdaError::DynamicLoad(reason)
            &&& reason@
                == "tools.ida.install_dir does not exist or is not a directory: "@
                + install_dir.text
        },
        (SessionPhase::CheckingDll { dll }, SessionEvent::Dll { present, shown }) => if !present {
            &&& fails(after, output)
            &&& output.ready->0->Err_0 matches IdaError::DynamicLoad(reason)
            &&& reason@ == "tools.ida.install_dir is missing "@ + dll_name(dll) + ": "@ + shown@
        } else if dll == 0 {
            after == (SessionPhase::CheckingDll { dll: 1 }) && says_nothing(output)
        } else {
            after == SessionPhase::Loading && says_nothing(output)
        },
        (SessionPhase::Loading, SessionEvent::Loaded(Err(error))) => fails(after, output)
            && output.ready->0->Err_0 == error,
        (SessionPhase::Loading, SessionEvent::Loaded(Ok(()))) => if !text::c_text(install_dir.text) {
            &&& fails(after, output)
            &&& output.ready->0->Err_0 matches IdaError::NulByte { field }
            &&& field@ == "install_dir"@
        } else if !text::c_text(database_path.text) {
            &&& fails(after, output)
            &&& output.ready->0->Err_0 matches IdaError::NulByte { field }
            &&& field@ == "database_path"@
        } else {
            &&& after matches SessionPhase::Opening { install_dir: dir, database_path: database }
            &&& text::is_c_string(dir@, install_dir.text)
            &&& text::is_c_string(database@, database_path.text)
            &&& says_nothing(output)
        },
        (SessionPhase::Opening { .. }, SessionEvent::Opened { status, handle, error }) => if status
            != DA_IDA_OK {
            fails(after, output) && is_native_error(output.ready->0->Err_0, status, error)
        } else {
            &&& after == (SessionPhase::Idle { handle })
            &&& output.ready == Some(Ok::<(), IdaError>(()))
            &&& output.reply is None
        },
        (SessionPhase::Idle { handle }, SessionEvent::Command(command)) => match command {
            IdaCommand::Lookup { runtime_address, runtime_module_base, ida_image_base } => {
                &&& after == (SessionPhase::LookingUp {
                    handle,
                    runtime_address,
                    runtime_module_base,
                    ida_image_base,
                })
                &&& says_nothing(output)
            },
            IdaCommand::Core { function, arguments } => match after {
                SessionPhase::RunningCore { handle: kept, function: named, call } => {
                    &&& kept == handle
                    &&& named == function
                    &&& core_call_outcome(Ok(call), function@, arguments@)
                    &&& says_nothing(output)
                },
                _ => {
                    &&& after == before
                    &&& output.ready is None
                    &&& output.reply matches Some(CommandReply::Core(Err(error)))
                    &&& core_call_outcome(Err(error), function@, arguments@)
                },
            },
            IdaCommand::Close => after == (SessionPhase::Closing { handle, answer: true })
                && says_nothing(output),
        },
        (SessionPhase::Idle { handle }, SessionEvent::CommandsEnded) => {
            &&& says_nothing(output)
            &&& if handle.value != 0 {
                after == (SessionPhase::Closing { handle, answer: false })
            } else {
                after is Finished
            }
        },
        (SessionPhase::LookingUp { handle, .. }, SessionEvent::LookedUp(reply)) => {
            &&& after == (SessionPhase::Idle { handle })
            &&& output.ready is None
            &&& output.reply matches Some(CommandReply::Lookup(found))
            &&& lookup_outcome(found, reply)
        },
        (
            SessionPhase::RunningCore { handle, function, .. },
            SessionEvent::CoreReplied(reply),
        ) => {
            &&& after == (SessionPhase::Idle { handle })
            &&& output.ready is None
            &&& output.reply matches Some(CommandReply::Core(found))
            &&& core_outcome(found, function, reply)
        },
        (SessionPhase::Closing { handle, answer }, SessionEvent::Closed { status, error }) => {
            &&& after is Finished
            &&& output.ready is None
            &&& if !answer {
                output.reply is None
            } else if status == DA_IDA_OK {
                output.reply == Some(CommandReply::Close(Ok(())))
            } else {
                output.reply matches Some(CommandReply::Close(Err(failed))) && is_native_error(
                    failed,
                    status,
                    error,
                )
            }
        },
        _ => after == before && says_nothing(output),
    }
}

fn silent() -> (output: SessionOutput)
    ensures
        says_nothing(output),
{
    SessionOutput { ready: None, reply: None }
}

fn failure(error: IdaError) -> (output: SessionOutput)
    ensures
        output.ready == Some(Err::<(), IdaError>(error)),
        output.reply is None,
{
    SessionOutput { ready: Some(Err(error)), reply: None }
}

fn answer(reply: CommandReply) -> (output: SessionOutput)
    ensures
        output.ready is None,
        output.reply == Some(reply),
{
    SessionOutput { ready: None, reply: Some(reply) }
}

impl IdaSession {
    /// A new session on a database. `supported` says whether the host has the
    /// native adapter.
    pub fn open(install_dir: HostPath, database_path: HostPath, supported: bool) -> (session: Result<
        IdaSession,
        IdaError,
    >)
        ensures
            session == (match (
                path_refusal(install_dir@, "install_dir"),
                path_refusal(database_path@, "database_path"),
            ) {
                (Some(error), _) => Err::<IdaSession, IdaError>(error),
                (None, Some(error)) => Err::<IdaSession, IdaError>(error),
                (None, None) => if supported {
                    Ok::<IdaSession, IdaError>(
                        IdaSession {
                            install_dir,
                            database_path,
                            phase: SessionPhase::CheckingInstallDir,
                        },
                    )
                } else {
                    Err::<IdaSession, IdaError>(IdaError::UnsupportedPlatform)
                },
            }),
    {
        if let Err(error) = validate_path(&install_dir, "install_dir") {
            return Err(error);
        }
        if let Err(error) = validate_path(&database_path, "database_path") {
            return Err(error);
        }
        if !supported {
            return Err(IdaError::UnsupportedPlatform);
        }
        Ok(IdaSession { install_dir, database_path, phase: SessionPhase::CheckingInstallDir })
    }

    /// What the worker does next.
    pub fn next_action(&self) -> (action: HostAction)
        ensures
            match self.phase {
                SessionPhase::CheckingInstallDir => action matches HostAction::ProbeInstallDir(dir)
                    && dir@ == self.install_dir@,
                SessionPhase::CheckingDll { dll } => action matches HostAction::ProbeDll(file)
                    && file@ == (path::JoinedView {
                    base: self.install_dir@,
                    names: seq![dll_name(dll)],
                }),
                SessionPhase::Loading => action matches HostAction::LoadAdapter(dir) && dir@
                    == self.install_dir@,
                SessionPhase::Opening { install_dir, database_path } => {
                    &&& action matches HostAction::OpenSession {
                        install_dir: dir,
                        database_path: database,
                    }
                    &&& dir@ == install_dir@
                    &&& database@ == database_path@
                },
                SessionPhase::Idle { .. } => action == HostAction::AwaitCommand,
                SessionPhase::LookingUp {
                    handle,
                    runtime_address,
                    runtime_module_base,
                    ida_image_base,
                } => action == (HostAction::LookUp {
                    handle,
                    runtime_address,
                    runtime_module_base,
                    ida_image_base,
                }),
                SessionPhase::RunningCore { handle, call, .. } => {
                    &&& action matches HostAction::RunCore {
                        handle: kept,
                        function: named,
                        arguments: given,
                    }
                    &&& kept == handle
                    &&& named@ == call.function@
                    &&& given@ == call.arguments@
                },
                SessionPhase::Closing { handle, .. } => action == (HostAction::CloseSession {
                    handle,
                }),
                SessionPhase::Finished => action == HostAction::Exit,
            },
    {
        match &self.phase {
            SessionPhase::CheckingInstallDir => HostAction::ProbeInstallDir(
                self.install_dir.clone(),
            ),
            SessionPhase::CheckingDll { dll } => HostAction::ProbeDll(
                JoinedPath::below(&self.install_dir, dll_text(*dll)),
            ),
            SessionPhase::Loading => HostAction::LoadAdapter(self.install_dir.clone()),
            SessionPhase::Opening { install_dir, database_path } => HostAction::OpenSession {
                install_dir: path::copy_bytes(install_dir),
                database_path: path::copy_bytes(database_path),
            },
            SessionPhase::Idle { .. } => HostAction::AwaitCommand,
            SessionPhase::LookingUp {
                handle,
                runtime_address,
                runtime_module_base,
                ida_image_base,
            } => HostAction::LookUp {
                handle: *handle,
                runtime_address: *runtime_address,
                runtime_module_base: *runtime_module_base,
                ida_image_base: *ida_image_base,
            },
            SessionPhase::RunningCore { handle, call, .. } => HostAction::RunCore {
                handle: *handle,
                function: path::copy_bytes(&call.function),
                arguments: path::copy_bytes(&call.arguments),
            },
            SessionPhase::Closing { handle, .. } => HostAction::CloseSession { handle: *handle },
            SessionPhase::Finished => HostAction::Exit,
        }
    }

    /// The C strings of the two paths, once the native adapter is loaded.
    fn opening(&self) -> (turn: (SessionPhase, SessionOutput))
        ensures
            turns(
                self.install_dir@,
                self.database_path@,
                SessionPhase::Loading,
                SessionEvent::Loaded(Ok(())),
                turn.0,
                turn.1,
            ),
    {
        let install_dir: Vec<u8> = match text::c_bytes(self.install_dir.text.as_str()) {
            Ok(bytes) => bytes,
            Err(at) => {
                proof {
                    text::lemma_first_nul(self.install_dir@.text, at as int);
                }
                return (
                    SessionPhase::Finished,
                    failure(IdaError::NulByte { field: "install_dir" }),
                );
            },
        };
        let database_path: Vec<u8> = match text::c_bytes(self.database_path.text.as_str()) {
            Ok(bytes) => bytes,
            Err(at) => {
                proof {
                    text::lemma_first_nul(self.database_path@.text, at as int);
                }
                return (
                    SessionPhase::Finished,
                    failure(IdaError::NulByte { field: "database_path" }),
                );
            },
        };
        (SessionPhase::Opening { install_dir, database_path }, silent())
    }

    /// What an idle worker does with a command.
    fn commanded(handle: DA_IdaSessionHandle, command: IdaCommand) -> (turn: (
        SessionPhase,
        SessionOutput,
    ))
        ensures
            forall|install_dir: path::PathView, database_path: path::PathView|
                turns(
                    install_dir,
                    database_path,
                    SessionPhase::Idle { handle },
                    SessionEvent::Command(command),
                    turn.0,
                    turn.1,
                ),
    {
        match command {
            IdaCommand::Lookup { runtime_address, runtime_module_base, ida_image_base } => (
                SessionPhase::LookingUp {
                    handle,
                    runtime_address,
                    runtime_module_base,
                    ida_image_base,
                },
                silent(),
            ),
            IdaCommand::Core { function, arguments } => match core_call(
                function.as_str(),
                &arguments,
            ) {
                Ok(call) => (SessionPhase::RunningCore { handle, function, call }, silent()),
                Err(error) => (
                    SessionPhase::Idle { handle },
                    answer(CommandReply::Core(Err(error))),
                ),
            },
            IdaCommand::Close => (SessionPhase::Closing { handle, answer: true }, silent()),
        }
    }

    /// One turn of the worker: what it hears, and what it says to it.
    pub fn advance(self, event: SessionEvent) -> (turn: (IdaSession, SessionOutput))
        ensures
            turn.0.install_dir == self.install_dir,
            turn.0.database_path == self.database_path,
            turns(
                self.install_dir@,
                self.database_path@,
                self.phase,
                event,
                turn.0.phase,
                turn.1,
            ),
    {
        let loaded: bool = match (&self.phase, &event) {
            (SessionPhase::Loading, SessionEvent::Loaded(Ok(()))) => true,
            _ => false,
        };
        if loaded {
            let turn: (SessionPhase, SessionOutput) = self.opening();
            return (
                IdaSession {
                    install_dir: self.install_dir,
                    database_path: self.database_path,
                    phase: turn.0,
                },
                turn.1,
            );
        }
        let install_dir: HostPath = self.install_dir;
        let database_path: HostPath = self.database_path;
        let turn: (SessionPhase, SessionOutput) = match (self.phase, event) {
            (SessionPhase::CheckingInstallDir, SessionEvent::InstallDir { present }) => if present {
                (SessionPhase::CheckingDll { dll: 0 }, silent())
            } else {
                (
                    SessionPhase::Finished,
                    failure(
                        IdaError::DynamicLoad(
                            "tools.ida.install_dir does not exist or is not a directory: ".to_owned().concat(
                                install_dir.text.as_str(),
                            ),
                        ),
                    ),
                )
            },
            (SessionPhase::CheckingDll { dll }, SessionEvent::Dll { present, shown }) => if !present {
                (
                    SessionPhase::Finished,
                    failure(
                        IdaError::DynamicLoad(
                            "tools.ida.install_dir is missing ".to_owned().concat(
                                dll_text(dll),
                            ).concat(": ").concat(shown.as_str()),
                        ),
                    ),
                )
            } else if dll == 0 {
                (SessionPhase::CheckingDll { dll: 1 }, silent())
            } else {
                (SessionPhase::Loading, silent())
            },
            (SessionPhase::Loading, SessionEvent::Loaded(Err(error))) => (
                SessionPhase::Finished,
                failure(error),
            ),
            (SessionPhase::Opening { .. }, SessionEvent::Opened { status, handle, error }) => if status
                != DA_IDA_OK {
                (SessionPhase::Finished, failure(native_error(status, error)))
            } else {
                (
                    SessionPhase::Idle { handle },
                    SessionOutput { ready: Some(Ok(())), reply: None },
                )
            },
            (SessionPhase::Idle { handle }, SessionEvent::Command(command)) => IdaSession::commanded(
                handle,
                command,
            ),
            (SessionPhase::Idle { handle }, SessionEvent::CommandsEnded) => if handle.value != 0 {
                (SessionPhase::Closing { handle, answer: false }, silent())
            } else {
                (SessionPhase::Finished, silent())
            },
            (SessionPhase::LookingUp { handle, .. }, SessionEvent::LookedUp(reply)) => (
                SessionPhase::Idle { handle },
                answer(CommandReply::Lookup(native_lookup(reply))),
            ),
            (
                SessionPhase::RunningCore { handle, function, .. },
                SessionEvent::CoreReplied(reply),
            ) => (
                SessionPhase::Idle { handle },
                answer(CommandReply::Core(native_core(function, reply))),
            ),
            (SessionPhase::Closing { handle, answer: wanted }, SessionEvent::Closed { status, error }) => {
                if !wanted {
                    (SessionPhase::Finished, silent())
                } else if status == DA_IDA_OK {
                    (SessionPhase::Finished, answer(CommandReply::Close(Ok(()))))
                } else {
                    (
                        SessionPhase::Finished,
                        answer(CommandReply::Close(Err(native_error(status, error)))),
                    )
                }
            },
            (phase, _) => (phase, silent()),
        };
        (IdaSession { install_dir, database_path, phase: turn.0 }, turn.1)
    }

    /// What a caller that looks a function up asks the worker.
    pub fn lookup_function(
        runtime_address: u64,
        runtime_module_base: u64,
        ida_image_base: u64,
    ) -> (command: IdaCommand)
        ensures
            command == (IdaCommand::Lookup { runtime_address, runtime_module_base, ida_image_base }),
    {
        IdaCommand::Lookup { runtime_address, runtime_module_base, ida_image_base }
    }

    /// What a caller of a core function asks the worker.
    pub fn core_function(function: &str, arguments: Json) -> (command: IdaCommand)
        ensures
            command matches IdaCommand::Core { function: named, arguments: given } && named@
                == function@ && given == arguments,
    {
        IdaCommand::Core { function: function.to_owned(), arguments }
    }

    /// What a caller that closes the session asks the worker.
    pub fn close() -> (command: IdaCommand)
        ensures
            command == IdaCommand::Close,
    {
        IdaCommand::Close
    }

    /// What closing gives a caller: `sent` says whether the worker took the
    /// command, and `received` what it answered, if it did. A worker that is
    /// gone is closed already.
    pub fn try_close(sent: bool, received: Option<Result<(), IdaError>>) -> (outcome: CloseOutcome)
        ensures
            outcome.result == (if !sent {
                Ok::<(), IdaError>(())
            } else {
                match received {
                    None => Err::<(), IdaError>(IdaError::WorkerStopped),
                    Some(result) => result,
                }
            }),
            outcome.join == (!sent || received is Some),
    {
        if !sent {
            return CloseOutcome { result: Ok(()), join: true };
        }
        match received {
            None => CloseOutcome { result: Err(IdaError::WorkerStopped), join: false },
            Some(result) => CloseOutcome { result, join: true },
        }
    }
}

/// What closing a session gives: its result, and whether the worker is waited
/// for.
#[derive(Debug, PartialEq, Eq)]
pub struct CloseOutcome {
    pub result: Result<(), IdaError>,
    pub join: bool,
}

/// What a command gives a caller: `sent` says whether the worker took it, and
/// `received` what it answered, if it did.
pub fn reply_or_stopped<T>(sent: bool, received: Option<Result<T, IdaError>>) -> (outcome: Result<
    T,
    IdaError,
>)
    ensures
        outcome == (match (sent, received) {
            (true, Some(result)) => result,
            _ => Err::<T, IdaError>(IdaError::WorkerStopped),
        }),
{
    if !sent {
        return Err(IdaError::WorkerStopped);
    }
    match received {
        Some(result) => result,
        None => Err(IdaError::WorkerStopped),
    }
}

/// The native session that the worker holds.
pub open spec fn held(phase: SessionPhase) -> Option<DA_IdaSessionHandle> {
    match phase {
        SessionPhase::Idle { handle } => Some(handle),
        SessionPhase::LookingUp { handle, .. } => Some(handle),
        SessionPhase::RunningCore { handle, .. } => Some(handle),
        SessionPhase::Closing { handle, .. } => Some(handle),
        _ => None,
    }
}

/// The worker holds a native session that must be closed.
pub open spec fn owes_a_close(phase: SessionPhase) -> bool {
    held(phase) matches Some(handle) && handle.value != 0
}

/// The turn opens a native session.
pub open spec fn opens(before: SessionPhase, event: SessionEvent) -> bool {
    &&& before is Opening
    &&& event matches SessionEvent::Opened { status, handle, .. }
    &&& status == DA_IDA_OK
    &&& handle.value != 0
}

/// The turn ends the closing of a native session.
pub open spec fn closes(before: SessionPhase, event: SessionEvent) -> bool {
    &&& before matches SessionPhase::Closing { handle, .. }
    &&& handle.value != 0
    &&& event is Closed
}

/// How far a phase is.
pub open spec fn stage(phase: SessionPhase) -> int {
    match phase {
        SessionPhase::CheckingInstallDir => 0,
        SessionPhase::CheckingDll { .. } => 1,
        SessionPhase::Loading => 2,
        SessionPhase::Opening { .. } => 3,
        SessionPhase::Idle { .. } => 4,
        SessionPhase::LookingUp { .. } => 4,
        SessionPhase::RunningCore { .. } => 4,
        SessionPhase::Closing { .. } => 5,
        SessionPhase::Finished => 6,
    }
}

/// A worker's life: the phases it goes through and what it hears and says in
/// between.
pub open spec fn is_life(
    install_dir: path::PathView,
    database_path: path::PathView,
    phases: Seq<SessionPhase>,
    events: Seq<SessionEvent>,
    outputs: Seq<SessionOutput>,
) -> bool {
    &&& phases.len() == events.len() + 1
    &&& outputs.len() == events.len()
    &&& phases[0] == SessionPhase::CheckingInstallDir
    &&& forall|i: int|
        0 <= i < events.len() ==> #[trigger] turns(
            install_dir,
            database_path,
            phases[i],
            events[i],
            phases[i + 1],
            outputs[i],
        )
}

/// How many of the first turns open a native session.
pub open spec fn opened_count(
    phases: Seq<SessionPhase>,
    events: Seq<SessionEvent>,
    end: int,
) -> nat
    decreases end,
{
    if end <= 0 {
        0
    } else {
        opened_count(phases, events, end - 1) + if opens(phases[end - 1], events[end - 1]) {
            1nat
        } else {
            0nat
        }
    }
}

/// How many of the first turns end the closing of a native session.
pub open spec fn closed_count(
    phases: Seq<SessionPhase>,
    events: Seq<SessionEvent>,
    end: int,
) -> nat
    decreases end,
{
    if end <= 0 {
        0
    } else {
        closed_count(phases, events, end - 1) + if closes(phases[end - 1], events[end - 1]) {
            1nat
        } else {
            0nat
        }
    }
}

/// A turn keeps the native session that the worker holds until it is closed,
/// comes by one only by opening it, and never goes back.
pub proof fn law_turns_keep_the_session(
    install_dir: path::PathView,
    database_path: path::PathView,
    before: SessionPhase,
    event: SessionEvent,
    after: SessionPhase,
    output: SessionOutput,
)
    requires
        turns(install_dir, database_path, before, event, after, output),
    ensures
        stage(before) <= stage(after),
        before is Finished ==> after is Finished,
        held(before) is Some ==> held(after) == held(before) || after is Finished,
        owes_a_close(before) && !owes_a_close(after) <==> closes(before, event),
        !owes_a_close(before) && owes_a_close(after) <==> opens(before, event),
        opens(before, event) ==> stage(after) > stage(before),
{
}

/// A native session that was opened is closed exactly once: at any moment of a
/// worker's life at most one was opened, and it is either held or was closed
/// once.
pub proof fn law_sessions_are_closed_once(
    install_dir: path::PathView,
    database_path: path::PathView,
    phases: Seq<SessionPhase>,
    events: Seq<SessionEvent>,
    outputs: Seq<SessionOutput>,
    end: int,
)
    requires
        is_life(install_dir, database_path, phases, events, outputs),
        0 <= end <= events.len(),
    ensures
        opened_count(phases, events, end) <= 1,
        opened_count(phases, events, end) == closed_count(phases, events, end) + if owes_a_close(
            phases[end],
        ) {
            1nat
        } else {
            0nat
        },
        phases[end] is Finished ==> opened_count(phases, events, end) == closed_count(
            phases,
            events,
            end,
        ),
        stage(phases[end]) <= 3 ==> opened_count(phases, events, end) == 0,
    decreases end,
{
    if end > 0 {
        law_sessions_are_closed_once(
            install_dir,
            database_path,
            phases,
            events,
            outputs,
            end - 1,
        );
        let i = end - 1;
        assert(turns(
            install_dir,
            database_path,
            phases[i],
            events[i],
            phases[i + 1],
            outputs[i],
        ));
        law_turns_keep_the_session(
            install_dir,
            database_path,
            phases[i],
            events[i],
            phases[i + 1],
            outputs[i],
        );
    }
}

/// Paths that were accepted for a session never stop its worker for a NUL.
pub proof fn law_accepted_paths_are_c_texts(
    install_dir: path::PathView,
    database_path: path::PathView,
)
    requires
        path_refusal(install_dir, "install_dir") is None,
        path_refusal(database_path, "database_path") is None,
    ensures
        text::c_text(install_dir.text),
        text::c_text(database_path.text),
{
    text::lemma_nul_bytes(install_dir.text);
    text::lemma_nul_bytes(database_path.text);
}

/// The error of a system call that failed.
pub fn last_os_error(context: &str, code: u32) -> (error: IdaError)
    ensures
        error matches IdaError::DynamicLoad(reason) && reason@ == context@
            + " failed with GetLastError="@ + text::decimal(code as nat),
{
    IdaError::DynamicLoad(
        context.to_owned().concat(" failed with GetLastError=").concat(
            text::decimal_text(code as u64).as_str(),
        ),
    )
}

/// The exports that the native adapter must have, by their position.
pub open spec fn export_name(symbol: usize) -> Seq<char> {
    if symbol == 0 {
        "da_ida_abi_version"@
    } else if symbol == 1 {
        "da_ida_release_view"@
    } else if symbol == 2 {
        "da_ida_last_error"@
    } else if symbol == 3 {
        "da_ida_session_open"@
    } else if symbol == 4 {
        "da_ida_lookup_function"@
    } else if symbol == 5 {
        "da_ida_core_function"@
    } else {
        "da_ida_session_close"@
    }
}

pub const EXPORT_COUNT: usize = 7;

/// The export to bind at a position.
pub fn export_text(symbol: usize) -> (name: &'static str)
    ensures
        name@ == export_name(symbol),
{
    if symbol == 0 {
        "da_ida_abi_version"
    } else if symbol == 1 {
        "da_ida_release_view"
    } else if symbol == 2 {
        "da_ida_last_error"
    } else if symbol == 3 {
        "da_ida_session_open"
    } else if symbol == 4 {
        "da_ida_lookup_function"
    } else if symbol == 5 {
        "da_ida_core_function"
    } else {
        "da_ida_session_close"
    }
}

/// The steps of loading the native adapter.
#[derive(Clone, Copy, Debug, PartialEq, Eq, Structural)]
pub enum LoadStep {
    SetDefaultDirectories,
    AddDirectory,
    FindAdapter,
    LoadModule,
    Bind { symbol: usize },
}

/// What a step gave.
#[derive(Debug)]
pub enum LoadReply {
    Done,
    /// A system call failed with this code.
    OsFailure { code: u32 },
    /// The adapter was not found.
    NotFound(IdaError),
    /// The export is missing.
    Missing,
}

/// What loading holds: the search directory, and the module.
#[derive(Clone, Copy, Debug, PartialEq, Eq, Structural)]
pub struct Acquired {
    pub directory: bool,
    pub module: bool,
}

/// How loading goes on.
#[derive(Debug)]
pub enum LoadTurn {
    Next(LoadStep),
    Loaded,
    /// Loading failed, and what it holds is given back.
    Failed { error: IdaError, release: Acquired },
}

/// What loading holds while a step is tried.
pub open spec fn acquired_before(step: LoadStep) -> Acquired {
    match step {
        LoadStep::SetDefaultDirectories => Acquired { directory: false, module: false },
        LoadStep::AddDirectory => Acquired { directory: false, module: false },
        LoadStep::FindAdapter => Acquired { directory: true, module: false },
        LoadStep::LoadModule => Acquired { directory: true, module: false },
        LoadStep::Bind { .. } => Acquired { directory: true, module: true },
    }
}

/// The step behind one that was done, if there is one.
pub open spec fn step_behind(step: LoadStep) -> Option<LoadStep> {
    match step {
        LoadStep::SetDefaultDirectories => Some(LoadStep::AddDirectory),
        LoadStep::AddDirectory => Some(LoadStep::FindAdapter),
        LoadStep::FindAdapter => Some(LoadStep::LoadModule),
        LoadStep::LoadModule => Some(LoadStep::Bind { symbol: 0 }),
        LoadStep::Bind { symbol } => if symbol + 1 < EXPORT_COUNT {
            Some(LoadStep::Bind { symbol: (symbol + 1) as usize })
        } else {
            None
        },
    }
}

/// The system call that a step makes, with the adapter's path as the host
/// shows it.
pub open spec fn step_context(step: LoadStep, shown: Seq<char>) -> Seq<char> {
    match step {
        LoadStep::SetDefaultDirectories => "SetDefaultDllDirectories"@,
        LoadStep::AddDirectory => "AddDllDirectory"@,
        LoadStep::FindAdapter => "current_exe"@,
        LoadStep::LoadModule => "LoadLibraryExW("@ + shown + ")"@,
        LoadStep::Bind { symbol } => export_name(symbol),
    }
}

/// How loading goes on after a step. `shown` is how the host shows the
/// adapter's path.
pub fn load_step(step: LoadStep, reply: LoadReply, shown: &str) -> (turn: LoadTurn)
    ensures
        match reply {
            LoadReply::Done => match step_behind(step) {
                Some(next) => turn == LoadTurn::Next(next),
                None => turn == LoadTurn::Loaded,
            },
            LoadReply::OsFailure { code } => {
                &&& turn matches LoadTurn::Failed { error, release }
                &&& release == acquired_before(step)
                &&& error matches IdaError::DynamicLoad(reason)
                &&& reason@ == step_context(step, shown@) + " failed with GetLastError="@
                    + text::decimal(code as nat)
            },
            LoadReply::NotFound(missing) => turn == (LoadTurn::Failed {
                error: missing,
                release: acquired_before(step),
            }),
            LoadReply::Missing => {
                &&& turn matches LoadTurn::Failed { error, release }
                &&& release == acquired_before(step)
                &&& error matches IdaError::DynamicLoad(reason)
                &&& reason@ == "missing native IDA adapter export `"@ + step_context(step, shown@)
                    + "`"@
            },
        },
{
    let release: Acquired = match step {
        LoadStep::SetDefaultDirectories => Acquired { directory: false, module: false },
        LoadStep::AddDirectory => Acquired { directory: false, module: false },
        LoadStep::FindAdapter => Acquired { directory: true, module: false },
        LoadStep::LoadModule => Acquired { directory: true, module: false },
        LoadStep::Bind { .. } => Acquired { directory: true, module: true },
    };
    let context: String = match step {
        LoadStep::SetDefaultDirectories => "SetDefaultDllDirectories".to_owned(),
        LoadStep::AddDirectory => "AddDllDirectory".to_owned(),
        LoadStep::FindAdapter => "current_exe".to_owned(),
        LoadStep::LoadModule => "LoadLibraryExW(".to_owned().concat(shown).concat(")"),
        LoadStep::Bind { symbol } => export_text(symbol).to_owned(),
    };
    match reply {
        LoadReply::Done => match step {
            LoadStep::SetDefaultDirectories => LoadTurn::Next(LoadStep::AddDirectory),
            LoadStep::AddDirectory => LoadTurn::Next(LoadStep::FindAdapter),
            LoadStep::FindAdapter => LoadTurn::Next(LoadStep::LoadModule),
            LoadStep::LoadModule => LoadTurn::Next(LoadStep::Bind { symbol: 0 }),
            LoadStep::Bind { symbol } => if symbol < EXPORT_COUNT - 1 {
                LoadTurn::Next(LoadStep::Bind { symbol: symbol + 1 })
            } else {
                LoadTurn::Loaded
            },
        },
        LoadReply::OsFailure { code } => LoadTurn::Failed {
            error: last_os_error(context.as_str(), code),
            release,
        },
        LoadReply::NotFound(error) => LoadTurn::Failed { error, release },
        LoadReply::Missing => LoadTurn::Failed {
            error: IdaError::DynamicLoad(
                "missing native IDA adapter export `".to_owned().concat(context.as_str()).concat("`"),
            ),
            release,
        },
    }
}

/// Where the program runs from.
#[derive(Debug)]
pub enum ExeLocation {
    /// The host does not say; why.
    Unknown(String),
    /// The program stands in no directory.
    NoParent,
    /// How the host shows the program, the directory it stands in, and the
    /// directory above, if there is one.
    At { shown: String, dir: HostPath, above: Option<HostPath> },
}

/// The places where the native adapter may stand: beside the program, in
/// `deps` beside it, and in the directory above.
pub open spec fn adapter_places(dir: path::PathView, above: Option<path::PathView>) -> Seq<
    path::JoinedView,
> {
    seq![
        path::JoinedView { base: dir, names: seq!["dbgatlas_ida.dll"@] },
        path::JoinedView { base: dir, names: seq!["deps"@, "dbgatlas_ida.dll"@] },
        path::JoinedView {
            base: match above {
                Some(parent) => parent,
                None => dir,
            },
            names: seq!["dbgatlas_ida.dll"@],
        },
    ]
}

/// The places where the native adapter may stand.
pub fn adapter_candidates(dir: &HostPath, above: &Option<HostPath>) -> (places: Vec<JoinedPath>)
    ensures
        places@.map_values(|place: JoinedPath| place@) == adapter_places(
            dir@,
            match above {
                Some(parent) => Some(parent@),
                None => None,
            },
        ),
{
    let beside: JoinedPath = JoinedPath::below(dir, "dbgatlas_ida.dll");
    let deps: JoinedPath = JoinedPath::below(dir, "deps").join("dbgatlas_ida.dll");
    assert(deps@.names =~= seq!["deps"@, "dbgatlas_ida.dll"@]);
    let up: JoinedPath = match above {
        Some(parent) => JoinedPath::below(parent, "dbgatlas_ida.dll"),
        None => JoinedPath::below(dir, "dbgatlas_ida.dll"),
    };
    let places: Vec<JoinedPath> = vec![beside, deps, up];
    assert(places@.map_values(|place: JoinedPath| place@) =~= adapter_places(
        dir@,
        match above {
            Some(parent) => Some(parent@),
            None => None,
        },
    ));
    places
}

/// The first place that holds the native adapter. `present` says of each place
/// whether it does.
pub fn find_adapter_path(exe: ExeLocation, present: [bool; 3]) -> (found: Result<
    JoinedPath,
    IdaError,
>)
    ensures
        match exe {
            ExeLocation::Unknown(reason) => found matches Err(IdaError::DynamicLoad(text)) && text@
                == "failed to locate current exe: "@ + reason@,
            ExeLocation::NoParent => found matches Err(IdaError::DynamicLoad(text)) && text@
                == "current exe has no parent directory"@,
            ExeLocation::At { shown, dir, above } => {
                let places = adapter_places(
                    dir@,
                    match above {
                        Some(parent) => Some(parent@),
                        None => None,
                    },
                );
                if present@[0] {
                    found matches Ok(place) && place@ == places[0]
                } else if present@[1] {
                    found matches Ok(place) && place@ == places[1]
                } else if present@[2] {
                    found matches Ok(place) && place@ == places[2]
                } else {
                    found matches Err(IdaError::DynamicLoad(text)) && text@
                        == "dbgatlas_ida.dll was not found next to "@ + shown@
                }
            },
        },
{
    match exe {
        ExeLocation::Unknown(reason) => Err(
            IdaError::DynamicLoad(
                "failed to locate current exe: ".to_owned().concat(reason.as_str()),
            ),
        ),
        ExeLocation::NoParent => Err(
            IdaError::DynamicLoad("current exe has no parent directory".to_owned()),
        ),
        ExeLocation::At { shown, dir, above } => {
            let places: Vec<JoinedPath> = adapter_candidates(&dir, &above);
            let ghost views = places@.map_values(|place: JoinedPath| place@);
            assert(views.len() == 3);
            let mut i: usize = 0;
            while i < 3
                invariant
                    i <= 3,
                    places@.len() == 3,
                    views == places@.map_values(|place: JoinedPath| place@),
                    forall|k: int| 0 <= k < i ==> !#[trigger] present@[k],
                    exe == (ExeLocation::At { shown, dir, above }),
                    views == adapter_places(
                        dir@,
                        match above {
                            Some(parent) => Some(parent@),
                            None => None,
                        },
                    ),
                decreases 3 - i,
            {
                if present[i] {
                    assert(views[i as int] == places@[i as int]@);
                    return Ok(places[i].clone());
                }
                i = i + 1;
            }
            Err(
                IdaError::DynamicLoad(
                    "dbgatlas_ida.dll was not found next to ".to_owned().concat(shown.as_str()),
                ),
            )
        },
    }
}

} // verus!
