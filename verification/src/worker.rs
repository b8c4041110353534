//! The worker of a session: what it does with each request, what it writes,
//! and what it answers.

use crate::dbgeng::{
    bytes_from_reply, session_from_reply, text_from_reply, DbgEngCall, DbgEngError, DbgEngSession,
    OpenReply, TextReply,
};
use crate::debug::{DebugCommandResult, DebugMemoryResult, DebugSessionState, DebugTarget};
use crate::ida::{CoreFunctionResult, FunctionLookup, IdaCommand, IdaError};
use crate::json::{write_compact, Json};
use crate::model::{OperationRef, SessionRef, Timestamp};
use crate::path::{HostPath, JoinedPath};
use crate::worker_protocol::{
    ReverseCoreFunctionResult, ReverseFunctionLookupResult, WorkerArtifactWrite, WorkerRequest,
    WorkerResponse,
};
use crate::{dbgeng, ida, json, path, text, worker_protocol};
use vstd::prelude::*;
use vstd::string::*;

verus! {

/// What a worker is started with.
#[derive(Debug, PartialEq, Eq)]
pub struct WorkerArgs {
    pub pipe: String,
    pub session_id: String,
}

/// What the arguments from a position on say, on top of what was said before:
/// the last value of each, or the argument that is not known.
pub open spec fn scan_args(
    args: Seq<String>,
    from: int,
    pipe: Option<String>,
    session_id: Option<String>,
) -> Result<(Option<String>, Option<String>), Seq<char>>
    decreases args.len() + 1 - from,
{
    if from < 0 || from >= args.len() {
        Ok((pipe, session_id))
    } else {
        let value = if from + 1 < args.len() {
            Some(args[from + 1])
        } else {
            None
        };
        if args[from]@ == "--pipe"@ {
            scan_args(args, from + 2, value, session_id)
        } else if args[from]@ == "--session-id"@ {
            scan_args(args, from + 2, pipe, value)
        } else {
            Err("unsupported argument `"@ + args[from]@ + "`"@)
        }
    }
}

impl WorkerArgs {
    /// Reads the arguments behind the program's name.
    #[verifier::loop_isolation(false)]
    pub fn parse(args: &Vec<String>) -> (parsed: Result<WorkerArgs, String>)
        ensures
            match (scan_args(args@, 0, None, None), parsed) {
                (Err(reason), Err(told)) => told@ == reason,
                (Ok((Some(pipe), Some(session_id))), Ok(found)) => found.pipe == pipe
                    && found.session_id == session_id,
                (Ok((None, _)), Err(told)) => told@ == "missing --pipe"@,
                (Ok((Some(_), None)), Err(told)) => told@ == "missing --session-id"@,
                _ => false,
            },
    {
        let mut pipe: Option<String> = None;
        let mut session_id: Option<String> = None;
        let mut i: usize = 0;
        while i < args.len()
            invariant
                i <= args.len(),
                scan_args(args@, 0, None, None) == scan_args(args@, i as int, pipe, session_id),
            decreases args.len() - i,
        {
            let is_pipe: bool = text::text_eq(args[i].as_str(), "--pipe");
            let is_session: bool = text::text_eq(args[i].as_str(), "--session-id");
            if !is_pipe && !is_session {
                return Err(
                    "unsupported argument `".to_owned().concat(args[i].as_str()).concat("`"),
                );
            }
            let value: Option<String> = if i + 1 < args.len() {
                Some(args[i + 1].clone())
            } else {
                None
            };
            if is_pipe {
                pipe = value;
            } else {
                session_id = value;
            }
            if i + 1 < args.len() {
                i = i + 2;
            } else {
                assert(scan_args(args@, i + 2, pipe, session_id) == scan_args(
                    args@,
                    args@.len() as int,
                    pipe,
                    session_id,
                ));
                i = args.len();
            }
        }
        match (pipe, session_id) {
            (Some(pipe), Some(session_id)) => Ok(WorkerArgs { pipe, session_id }),
            (None, _) => Err("missing --pipe".to_owned()),
            (Some(_), None) => Err("missing --session-id".to_owned()),
        }
    }
}

/// A command that is run, and where its output goes.
#[derive(Debug)]
pub struct CommandContext {
    pub session_id: SessionRef,
    pub operation_id: OperationRef,
    pub command: String,
    pub artifact_dir: HostPath,
    pub description: &'static str,
}

/// Memory that is read, and where it goes.
#[derive(Debug)]
pub struct MemoryContext {
    pub session_id: SessionRef,
    pub operation_id: OperationRef,
    pub address: u64,
    pub length: u32,
    pub artifact_dir: HostPath,
}

/// What a worker does with a request.
#[derive(Debug)]
pub enum WorkerStep {
    /// It answers, and closes what it gives up: a native debug session, and
    /// the reverse session.
    Respond { response: WorkerResponse, release: Option<u64>, drop_reverse: bool },
    /// It opens a debug session.
    OpenDebug { call: DbgEngCall, artifact_dir: HostPath },
    /// It runs a debugger command.
    RunDebug { call: DbgEngCall, context: CommandContext },
    /// It reads memory.
    ReadDebug { call: DbgEngCall, context: MemoryContext },
    /// It opens a reverse session.
    OpenReverse { install_dir: HostPath, database_path: HostPath },
    /// It asks the reverse session.
    AskReverse { command: IdaCommand },
    /// It closes the reverse session.
    CloseReverse,
}

/// Something that is written to a file.
#[derive(Debug)]
pub enum FileWrite {
    /// The directory that holds this file, and those above it, are made where
    /// they are missing.
    CreateParent(JoinedPath),
    WriteText { path: JoinedPath, text: String },
    WriteBytes { path: JoinedPath, bytes: Vec<u8> },
    AppendText { path: JoinedPath, text: String },
    /// A document is appended as a line.
    AppendEvent { path: JoinedPath, event: Json },
}

/// Something that is written to a file, as contracts speak of it.
pub enum FileView {
    CreateParent(path::JoinedView),
    WriteText(path::JoinedView, Seq<char>),
    WriteBytes(path::JoinedView, Seq<u8>),
    AppendText(path::JoinedView, Seq<char>),
    AppendEvent(path::JoinedView, json::JsonView),
}

impl View for FileWrite {
    type V = FileView;

    open spec fn view(&self) -> FileView {
        match self {
            FileWrite::CreateParent(path) => FileView::CreateParent(path@),
            FileWrite::WriteText { path, text } => FileView::WriteText(path@, text@),
            FileWrite::WriteBytes { path, bytes } => FileView::WriteBytes(path@, bytes@),
            FileWrite::AppendText { path, text } => FileView::AppendText(path@, text@),
            FileWrite::AppendEvent { path, event } => FileView::AppendEvent(path@, event@),
        }
    }
}

/// What is written behind a list.
pub open spec fn file_views(files: Seq<FileWrite>) -> Seq<FileView> {
    files.map_values(|file: FileWrite| file@)
}

/// What a worker writes, in order, and what it answers when all of it was
/// written.
#[derive(Debug)]
pub struct WritePlan {
    pub files: Vec<FileWrite>,
    pub response: WorkerResponse,
}

/// A debug session that was opened: the native session that it takes the place
/// of, and the event that tells of it.
#[derive(Debug)]
pub struct SessionStarted {
    pub release: Option<u64>,
    pub file: FileWrite,
    pub write: WorkerArtifactWrite,
}

/// The worker of a session: the debug session, and whether a reverse session
/// is open.
#[derive(Debug)]
pub struct WorkerState {
    expected_session_id: String,
    session: Option<DbgEngSession>,
    reverse_open: bool,
}

/// The worker answers with a failure and gives nothing up.
pub open spec fn fails(step: WorkerStep, code: Seq<char>, message: Seq<char>) -> bool {
    &&& step matches WorkerStep::Respond { response, release, drop_reverse }
    &&& worker_protocol::is_failed(response, code, message)
    &&& release is None
    &&& !drop_reverse
}

/// The command that stands for appending to the symbol path.
pub open spec fn symbols_command(symbol_path: Seq<char>, reload: bool) -> Seq<char> {
    if reload {
        "add_symbols "@ + symbol_path + " --reload"@
    } else {
        "add_symbols "@ + symbol_path
    }
}

/// What a worker does with a request to open a debug session.
pub open spec fn starts(target: DebugTarget, artifact_dir: HostPath, step: WorkerStep) -> bool {
    match target {
        DebugTarget::Dump { path } => match dbgeng::dump_refusal(path@) {
            Some(reason) => fails(step, "start_failed"@, reason),
            None => {
                &&& step matches WorkerStep::OpenDebug { call, artifact_dir: dir }
                &&& dir == artifact_dir
                &&& call matches DbgEngCall::OpenDump { path: bytes }
                &&& text::is_c_string(bytes@, path@.text)
            },
        },
        DebugTarget::Attach { pid } => if pid == 0 {
            fails(step, "start_failed"@, "attach pid must be greater than zero"@)
        } else {
            step == (WorkerStep::OpenDebug {
                call: DbgEngCall::AttachProcess { pid },
                artifact_dir,
            })
        },
        DebugTarget::Launch { .. } => fails(
            step,
            "unsupported_target"@,
            "launch targets are not supported in MVP1"@,
        ),
    }
}

/// What a worker does with a request. `session` is the native debug session
/// that it holds, and `reverse` says whether a reverse session is open.
pub open spec fn handles(
    expected: Seq<char>,
    session: Option<u64>,
    reverse: bool,
    request: WorkerRequest,
    step: WorkerStep,
) -> bool {
    let wanted = worker_protocol::request_session(request).id@;
    if wanted != expected {
        fails(
            step,
            "session_mismatch"@,
            "worker session is "@ + expected + ", request was for "@ + wanted,
        )
    } else {
        match request {
            WorkerRequest::StartDebugSession { target, artifact_dir, .. } => starts(
                target,
                artifact_dir,
                step,
            ),
            WorkerRequest::EvalDebugCommand {
                session_id,
                operation_id,
                command,
                artifact_dir,
            } => match session {
                None => fails(step, "session_not_started"@, "debug session has not started"@),
                Some(held) => match dbgeng::command_refusal(command@) {
                    Some(reason) => fails(step, "operation_failed"@, reason),
                    None => {
                        &&& step matches WorkerStep::RunDebug { call, context }
                        &&& call matches DbgEngCall::Execute { handle, command: bytes }
                        &&& handle == held
                        &&& text::is_c_string(bytes@, command@)
                        &&& context.session_id == session_id
                        &&& context.operation_id == operation_id
                        &&& context.command@ == command@
                        &&& context.artifact_dir == artifact_dir
                        &&& context.description@ == "debug raw command output"@
                    },
                },
            },
            WorkerRequest::AddSymbols {
                session_id,
                operation_id,
                symbol_path,
                reload,
                artifact_dir,
            } => match session {
                None => fails(step, "session_not_started"@, "debug session has not started"@),
                Some(held) => match dbgeng::symbol_refusal(symbol_path@) {
                    Some(reason) => fails(step, "operation_failed"@, reason),
                    None => {
                        &&& step matches WorkerStep::RunDebug { call, context }
                        &&& call matches DbgEngCall::AddSymbols {
                            handle,
                            symbol_path: bytes,
                            reload: flag,
                        }
                        &&& handle == held
                        &&& text::is_c_string(bytes@, symbol_path@)
                        &&& flag == if reload {
                            1i32
                        } else {
                            0i32
                        }
                        &&& context.session_id == session_id
                        &&& context.operation_id == operation_id
                        &&& context.command@ == symbols_command(symbol_path@, reload)
                        &&& context.artifact_dir == artifact_dir
                        &&& context.description@ == "debug add_symbols output"@
                    },
                },
            },
            WorkerRequest::ReadMemory {
                session_id,
                operation_id,
                address,
                length,
                artifact_dir,
            } => match session {
                None => fails(step, "session_not_started"@, "debug session has not started"@),
                Some(held) => if length > u32::MAX {
                    fails(step, "operation_failed"@, "memory read length exceeds u32"@)
                } else if length == 0 {
                    fails(
                        step,
                        "operation_failed"@,
                        "memory read length must be greater than zero"@,
                    )
                } else {
                    step == (WorkerStep::ReadDebug {
                        call: DbgEngCall::ReadVirtual {
                            handle: held,
                            address,
                            length: length as u32,
                        },
                        context: MemoryContext {
                            session_id,
                            operation_id,
                            address,
                            length: length as u32,
                            artifact_dir,
                        },
                    })
                },
            },
            WorkerRequest::OpenReverseSession { ida_install_dir, database_path, .. } => if reverse {
                fails(step, "reverse_session_exists"@, "reverse session already exists"@)
            } else {
                step == (WorkerStep::OpenReverse { install_dir: ida_install_dir, database_path })
            },
            WorkerRequest::LookupReverseFunction {
                runtime_address,
                runtime_module_base,
                ida_image_base,
                ..
            } => if !reverse {
                fails(step, "reverse_session_not_found"@, "reverse session is not open"@)
            } else {
                step == (WorkerStep::AskReverse {
                    command: IdaCommand::Lookup {
                        runtime_address,
                        runtime_module_base,
                        ida_image_base,
                    },
                })
            },
            WorkerRequest::ReverseCoreFunction { function, arguments, .. } => if !reverse {
                fails(step, "reverse_session_not_found"@, "reverse session is not open"@)
            } else {
                step == (WorkerStep::AskReverse {
                    command: IdaCommand::Core { function, arguments },
                })
            },
            WorkerRequest::CloseReverseSession { .. } => if !reverse {
                fails(step, "reverse_session_not_found"@, "reverse session is not open"@)
            } else {
                step == WorkerStep::CloseReverse
            },
            WorkerRequest::CloseSession { .. } => gives_up(
                session,
                reverse,
                step,
                "debug session closed"@,
            ),
            WorkerRequest::KillSession { .. } => gives_up(
                session,
                reverse,
                step,
                "debug session killed"@,
            ),
            WorkerRequest::CancelOperation { .. } => {
                &&& step matches WorkerStep::Respond { response, release, drop_reverse }
                &&& worker_protocol::is_ok(response, "operation cancel acknowledged"@)
                &&& release is None
                &&& !drop_reverse
            },
        }
    }
}

/// The worker gives up everything that it holds.
pub open spec fn gives_up(
    session: Option<u64>,
    reverse: bool,
    step: WorkerStep,
    summary: Seq<char>,
) -> bool {
    &&& step matches WorkerStep::Respond { response, release, drop_reverse }
    &&& worker_protocol::is_ok(response, summary)
    &&& release == session
    &&& drop_reverse == reverse
}

/// The request ends the session.
pub open spec fn ends_session(expected: Seq<char>, request: WorkerRequest) -> bool {
    &&& worker_protocol::request_session(request).id@ == expected
    &&& request is CloseSession || request is KillSession
}

fn refuse(code: &str, message: &str) -> (step: WorkerStep)
    ensures
        fails(step, code@, message@),
{
    WorkerStep::Respond {
        response: WorkerResponse::failed(code, message),
        release: None,
        drop_reverse: false,
    }
}

/// What a worker does with a request to open a debug session.
pub fn start_session(target: DebugTarget, artifact_dir: HostPath) -> (step: WorkerStep)
    ensures
        starts(target, artifact_dir, step),
{
    match target {
        DebugTarget::Dump { path } => match DbgEngSession::open_dump(&path) {
            Ok(call) => WorkerStep::OpenDebug { call, artifact_dir },
            Err(error) => {
                proof {
                    if let DbgEngError::InteriorNul(at) = error {
                        text::lemma_first_nul(path@.text, at as int);
                    }
                }
                refuse("start_failed", error.message().as_str())
            },
        },
        DebugTarget::Attach { pid } => match DbgEngSession::attach(pid) {
            Ok(call) => WorkerStep::OpenDebug { call, artifact_dir },
            Err(error) => refuse("start_failed", error.message().as_str()),
        },
        DebugTarget::Launch { .. } => refuse(
            "unsupported_target",
            "launch targets are not supported in MVP1",
        ),
    }
}

impl WorkerState {
    /// The session that the worker is for.
    pub closed spec fn expected(&self) -> Seq<char> {
        self.expected_session_id@
    }

    /// The native debug session that the worker holds.
    pub closed spec fn session_handle(&self) -> Option<u64> {
        match self.session {
            Some(session) => Some(session.handle_value()),
            None => None,
        }
    }

    /// Whether a reverse session is open.
    pub closed spec fn has_reverse(&self) -> bool {
        self.reverse_open
    }

    /// A native session that the worker holds is one.
    pub open spec fn valid(&self) -> bool {
        self.session_handle() != Some(0u64)
    }

    /// A worker without sessions.
    pub fn new(expected_session_id: &str) -> (state: Self)
        ensures
            state.valid(),
            state.expected() == expected_session_id@,
            state.session_handle() is None,
            !state.has_reverse(),
    {
        WorkerState {
            expected_session_id: expected_session_id.to_owned(),
            session: None,
            reverse_open: false,
        }
    }

    /// Gives the native debug session back.
    fn give_back(&mut self) -> (handle: Option<u64>)
        requires
            old(self).valid(),
        ensures
            handle == old(self).session_handle(),
            final(self).session_handle() is None,
            final(self).expected() == old(self).expected(),
            final(self).has_reverse() == old(self).has_reverse(),
    {
        match self.session.take() {
            None => None,
            Some(session) => {
                let mut closing: DbgEngSession = session;
                closing.release()
            },
        }
    }

    /// Gives everything up.
    fn close_all(&mut self, summary: &str) -> (step: WorkerStep)
        requires
            old(self).valid(),
        ensures
            gives_up(old(self).session_handle(), old(self).has_reverse(), step, summary@),
            final(self).session_handle() is None,
            !final(self).has_reverse(),
            final(self).expected() == old(self).expected(),
    {
        let drop_reverse: bool = self.reverse_open;
        let release: Option<u64> = self.give_back();
        self.reverse_open = false;
        WorkerStep::Respond { response: WorkerResponse::ok(summary), release, drop_reverse }
    }

    fn eval(
        &self,
        session_id: SessionRef,
        operation_id: OperationRef,
        command: String,
        artifact_dir: HostPath,
    ) -> (step: WorkerStep)
        requires
            session_id.id@ == self.expected(),
        ensures
            handles(
                self.expected(),
                self.session_handle(),
                self.has_reverse(),
                WorkerRequest::EvalDebugCommand { session_id, operation_id, command, artifact_dir },
                step,
            ),
    {
        let session: &DbgEngSession = match &self.session {
            Some(session) => session,
            None => return refuse("session_not_started", "debug session has not started"),
        };
        match session.execute(command.as_str()) {
            Ok(call) => WorkerStep::RunDebug {
                call,
                context: CommandContext {
                    session_id,
                    operation_id,
                    command,
                    artifact_dir,
                    description: "debug raw command output",
                },
            },
            Err(error) => {
                proof {
                    if let DbgEngError::InteriorNul(at) = error {
                        text::lemma_first_nul(command@, at as int);
                    }
                }
                refuse("operation_failed", error.message().as_str())
            },
        }
    }

    fn add_symbols(
        &self,
        session_id: SessionRef,
        operation_id: OperationRef,
        symbol_path: String,
        reload: bool,
        artifact_dir: HostPath,
    ) -> (step: WorkerStep)
        requires
            session_id.id@ == self.expected(),
        ensures
            handles(
                self.expected(),
                self.session_handle(),
                self.has_reverse(),
                WorkerRequest::AddSymbols {
                    session_id,
                    operation_id,
                    symbol_path,
                    reload,
                    artifact_dir,
                },
                step,
            ),
    {
        let session: &DbgEngSession = match &self.session {
            Some(session) => session,
            None => return refuse("session_not_started", "debug session has not started"),
        };
        match session.add_symbols(symbol_path.as_str(), reload) {
            Ok(call) => {
                let told: String = "add_symbols ".to_owned().concat(symbol_path.as_str());
                let command: String = if reload {
                    told.concat(" --reload")
                } else {
                    told
                };
                WorkerStep::RunDebug {
                    call,
                    context: CommandContext {
                        session_id,
                        operation_id,
                        command,
                        artifact_dir,
                        description: "debug add_symbols output",
                    },
                }
            },
            Err(error) => {
                proof {
                    if let DbgEngError::InteriorNul(at) = error {
                        text::lemma_first_nul(symbol_path@, at as int);
                    }
                }
                refuse("operation_failed", error.message().as_str())
            },
        }
    }

    fn read_memory(
        &self,
        session_id: SessionRef,
        operation_id: OperationRef,
        address: u64,
        length: u64,
        artifact_dir: HostPath,
    ) -> (step: WorkerStep)
        requires
            session_id.id@ == self.expected(),
        ensures
            handles(
                self.expected(),
                self.session_handle(),
                self.has_reverse(),
                WorkerRequest::ReadMemory {
                    session_id,
                    operation_id,
                    address,
                    length,
                    artifact_dir,
                },
                step,
            ),
    {
        let session: &DbgEngSession = match &self.session {
            Some(session) => session,
            None => return refuse("session_not_started", "debug session has not started"),
        };
        if length > u32::MAX as u64 {
            return refuse("operation_failed", "memory read length exceeds u32");
        }
        let short: u32 = length as u32;
        match session.read_memory(address, short) {
            Ok(call) => WorkerStep::ReadDebug {
                call,
                context: MemoryContext {
                    session_id,
                    operation_id,
                    address,
                    length: short,
                    artifact_dir,
                },
            },
            Err(error) => refuse("operation_failed", error.message().as_str()),
        }
    }

    /// What the worker does with a request.
    pub fn handle_request(&mut self, request: WorkerRequest) -> (step: WorkerStep)
        requires
            old(self).valid(),
        ensures
            handles(
                old(self).expected(),
                old(self).session_handle(),
                old(self).has_reverse(),
                request,
                step,
            ),
            final(self).valid(),
            final(self).expected() == old(self).expected(),
            if ends_session(old(self).expected(), request) {
                final(self).session_handle() is None && !final(self).has_reverse()
            } else {
                final(self).session_handle() == old(self).session_handle()
                    && final(self).has_reverse() == old(self).has_reverse()
            },
    {
        if !text::text_eq(request.session_id().id.as_str(), self.expected_session_id.as_str()) {
            let message: String = "worker session is ".to_owned().concat(
                self.expected_session_id.as_str(),
            ).concat(", request was for ").concat(request.session_id().id.as_str());
            return refuse("session_mismatch", message.as_str());
        }
        match request {
            WorkerRequest::StartDebugSession { target, artifact_dir, .. } => start_session(
                target,
                artifact_dir,
            ),
            WorkerRequest::EvalDebugCommand {
                session_id,
                operation_id,
                command,
                artifact_dir,
            } => self.eval(session_id, operation_id, command, artifact_dir),
            WorkerRequest::AddSymbols {
                session_id,
                operation_id,
                symbol_path,
                reload,
                artifact_dir,
            } => self.add_symbols(session_id, operation_id, symbol_path, reload, artifact_dir),
            WorkerRequest::ReadMemory {
                session_id,
                operation_id,
                address,
                length,
                artifact_dir,
            } => self.read_memory(session_id, operation_id, address, length, artifact_dir),
            WorkerRequest::OpenReverseSession { ida_install_dir, database_path, .. } => {
                if self.reverse_open {
                    return refuse("reverse_session_exists", "reverse session already exists");
                }
                WorkerStep::OpenReverse { install_dir: ida_install_dir, database_path }
            },
            WorkerRequest::LookupReverseFunction {
                runtime_address,
                runtime_module_base,
                ida_image_base,
                ..
            } => {
                if !self.reverse_open {
                    return refuse("reverse_session_not_found", "reverse session is not open");
                }
                WorkerStep::AskReverse {
                    command: IdaCommand::Lookup {
                        runtime_address,
                        runtime_module_base,
                        ida_image_base,
                    },
                }
            },
            WorkerRequest::ReverseCoreFunction { function, arguments, .. } => {
                if !self.reverse_open {
                    return refuse("reverse_session_not_found", "reverse session is not open");
                }
                WorkerStep::AskReverse { command: IdaCommand::Core { function, arguments } }
            },
            WorkerRequest::CloseReverseSession { .. } => {
                if !self.reverse_open {
                    return refuse("reverse_session_not_found", "reverse session is not open");
                }
                WorkerStep::CloseReverse
            },
            WorkerRequest::CloseSession { .. } => self.close_all("debug session closed"),
            WorkerRequest::KillSession { .. } => self.close_all("debug session killed"),
            WorkerRequest::CancelOperation { .. } => WorkerStep::Respond {
                response: WorkerResponse::ok("operation cancel acknowledged"),
                release: None,
                drop_reverse: false,
            },
        }
    }

    /// What opening a debug session gave: the session takes the place of the
    /// one that was open, and an event tells of it.
    pub fn finish_start(
        &mut self,
        reply: Option<OpenReply>,
        artifact_dir: &HostPath,
        now: Timestamp,
    ) -> (started: Result<SessionStarted, WorkerResponse>)
        requires
            old(self).valid(),
        ensures
            final(self).valid(),
            final(self).expected() == old(self).expected(),
            final(self).has_reverse() == old(self).has_reverse(),
            match (dbgeng::open_refusal(reply), started) {
                (Some(reason), Err(response)) => {
                    &&& worker_protocol::is_failed(response, "start_failed"@, reason)
                    &&& final(self).session_handle() == old(self).session_handle()
                },
                (None, Ok(opened)) => {
                    &&& final(self).session_handle() == Some(reply->0.handle)
                    &&& opened.release == old(self).session_handle()
                    &&& opened.file@ == FileView::AppendEvent(
                        under(artifact_dir@, seq!["events.jsonl"@]),
                        state_event(old(self).expected(), "ready"@, now),
                    )
                    &&& is_write(
                        opened.write,
                        old(self).expected(),
                        "events.jsonl"@,
                        "debug.events"@,
                        0,
                        "debug session events"@,
                    )
                },
                _ => false,
            },
    {
        match session_from_reply(reply) {
            Err(error) => Err(
                WorkerResponse::failed("start_failed", error.message().as_str()),
            ),
            Ok(session) => {
                let release: Option<u64> = self.give_back();
                self.session = Some(session);
                let file: FileWrite = FileWrite::AppendEvent {
                    path: JoinedPath::below(artifact_dir, "events.jsonl"),
                    event: state_document(self.expected_session_id.as_str(), "ready", now),
                };
                let write: WorkerArtifactWrite = artifact_write(
                    self.expected_session_id.as_str(),
                    "events.jsonl",
                    "debug.events",
                    0,
                    "debug session events",
                );
                Ok(SessionStarted { release, file, write })
            },
        }
    }

    /// What opening a reverse session gave.
    pub fn finish_reverse_open(&mut self, opened: Result<(), IdaError>) -> (response: WorkerResponse)
        requires
            old(self).valid(),
        ensures
            final(self).valid(),
            final(self).expected() == old(self).expected(),
            final(self).session_handle() == old(self).session_handle(),
            match opened {
                Ok(()) => {
                    &&& final(self).has_reverse()
                    &&& response matches WorkerResponse::ReverseSessionOpened { writes }
                    &&& writes@.len() == 0
                },
                Err(error) => {
                    &&& final(self).has_reverse() == old(self).has_reverse()
                    &&& worker_protocol::is_failed(
                        response,
                        "reverse_open_failed"@,
                        ida::ida_error_text(error),
                    )
                },
            },
    {
        match opened {
            Ok(()) => {
                self.reverse_open = true;
                WorkerResponse::ReverseSessionOpened { writes: Vec::new() }
            },
            Err(error) => WorkerResponse::failed("reverse_open_failed", error.message().as_str()),
        }
    }

    /// What closing the reverse session gave. A session that could not be
    /// closed stays open.
    pub fn finish_reverse_close(&mut self, closed: Result<(), IdaError>) -> (response:
        WorkerResponse)
        requires
            old(self).valid(),
        ensures
            final(self).valid(),
            final(self).expected() == old(self).expected(),
            final(self).session_handle() == old(self).session_handle(),
            match closed {
                Ok(()) => {
                    &&& !final(self).has_reverse()
                    &&& worker_protocol::is_ok(response, "reverse session closed"@)
                },
                Err(error) => {
                    &&& final(self).has_reverse() == old(self).has_reverse()
                    &&& worker_protocol::is_failed(
                        response,
                        "reverse_close_failed"@,
                        ida::ida_error_text(error),
                    )
                },
            },
    {
        match closed {
            Ok(()) => {
                self.reverse_open = false;
                WorkerResponse::ok("reverse session closed")
            },
            Err(error) => WorkerResponse::failed("reverse_close_failed", error.message().as_str()),
        }
    }
}

/// A path below the artifact directory of a session.
pub open spec fn under(artifact_dir: path::PathView, names: Seq<Seq<char>>) -> path::JoinedView {
    path::JoinedView { base: artifact_dir, names }
}

/// A reference, as a document.
pub open spec fn ref_document(id: Seq<char>) -> json::JsonView {
    json::JsonView::Object(seq![("id"@, json::JsonView::Text(id))])
}

/// A moment, as a document.
pub open spec fn time_document(now: Timestamp) -> json::JsonView {
    json::JsonView::Object(seq![("unix_millis"@, json::JsonView::Uint(now.unix_millis))])
}

/// The event of a session that changed its state.
pub open spec fn state_event(session: Seq<char>, state: Seq<char>, now: Timestamp) -> json::JsonView {
    json::JsonView::Object(
        seq![
            ("event"@, json::JsonView::Text("state_changed"@)),
            ("session_id"@, ref_document(session)),
            ("state"@, json::JsonView::Text(state)),
            ("timestamp"@, time_document(now)),
        ],
    )
}

/// The event of a command's output.
pub open spec fn output_event(
    session: Seq<char>,
    operation: Seq<char>,
    command: Seq<char>,
    now: Timestamp,
    byte_len: u64,
) -> json::JsonView {
    json::JsonView::Object(
        seq![
            ("event"@, json::JsonView::Text("output"@)),
            ("session_id"@, ref_document(session)),
            ("operation_id"@, ref_document(operation)),
            ("command"@, json::JsonView::Text(command)),
            ("timestamp"@, time_document(now)),
            ("byte_len"@, json::JsonView::Uint(byte_len)),
        ],
    )
}

/// The path of a file of a session, relative to the workspace.
pub open spec fn session_path(relative: path::JoinedView, session: Seq<char>, suffix: Seq<char>) -> bool {
    &&& relative.base.text == "artifacts"@
    &&& relative.base.raw is None
    &&& relative.names == seq!["sessions"@, session, suffix]
}

/// The answer names a file of a session.
pub open spec fn is_write(
    write: WorkerArtifactWrite,
    session: Seq<char>,
    suffix: Seq<char>,
    kind: Seq<char>,
    byte_len: u64,
    description: Seq<char>,
) -> bool {
    &&& session_path(write.relative_path@, session, suffix)
    &&& write.kind@ == kind
    &&& write.byte_len == byte_len
    &&& write.description matches Some(told)
    &&& told@ == description
}

fn session_relative_path(session_id: &str, suffix: &str) -> (relative: JoinedPath)
    ensures
        session_path(relative@, session_id@, suffix@),
{
    let base: HostPath = HostPath::new("artifacts");
    let relative: JoinedPath = JoinedPath::below(&base, "sessions").join(session_id).join(suffix);
    assert(relative@.names =~= seq!["sessions"@, session_id@, suffix@]);
    relative
}

fn artifact_write(
    session_id: &str,
    suffix: &str,
    kind: &str,
    byte_len: u64,
    description: &str,
) -> (write: WorkerArtifactWrite)
    ensures
        is_write(write, session_id@, suffix@, kind@, byte_len, description@),
{
    WorkerArtifactWrite {
        relative_path: session_relative_path(session_id, suffix),
        kind: kind.to_owned(),
        byte_len,
        description: Some(description.to_owned()),
    }
}

fn ref_json(id: &str) -> (document: Json)
    ensures
        document@ == ref_document(id@),
{
    Json::object1("id", Json::text(id))
}

fn time_json(now: Timestamp) -> (document: Json)
    ensures
        document@ == time_document(now),
{
    Json::object1("unix_millis", Json::Uint(now.unix_millis))
}

fn state_document(session_id: &str, state: &str, now: Timestamp) -> (event: Json)
    ensures
        event@ == state_event(session_id@, state@, now),
{
    let event: Json = Json::object(
        vec![
            ("event".to_owned(), Json::text("state_changed")),
            ("session_id".to_owned(), ref_json(session_id)),
            ("state".to_owned(), Json::text(state)),
            ("timestamp".to_owned(), time_json(now)),
        ],
    );
    assert(event@->Object_0 =~= state_event(session_id@, state@, now)->Object_0);
    event
}

fn output_document(
    session_id: &str,
    operation_id: &str,
    command: &str,
    now: Timestamp,
    byte_len: u64,
) -> (event: Json)
    ensures
        event@ == output_event(session_id@, operation_id@, command@, now, byte_len),
{
    let event: Json = Json::object(
        vec![
            ("event".to_owned(), Json::text("output")),
            ("session_id".to_owned(), ref_json(session_id)),
            ("operation_id".to_owned(), ref_json(operation_id)),
            ("command".to_owned(), Json::text(command)),
            ("timestamp".to_owned(), time_json(now)),
            ("byte_len".to_owned(), Json::Uint(byte_len)),
        ],
    );
    assert(event@->Object_0 =~= output_event(
        session_id@,
        operation_id@,
        command@,
        now,
        byte_len,
    )->Object_0);
    event
}

/// The line that an event is appended as: its document, which is one line, and
/// a line feed.
pub fn event_line(event: &Json) -> (line: Result<String, String>)
    ensures
        match json::compact_text(event@) {
            Ok(document) => line matches Ok(written) && written@ == document + "\n"@
                && !document.contains('\n'),
            Err(reason) => line matches Err(told) && told@ == reason,
        },
{
    match write_compact(event) {
        Ok(document) => Ok(document.concat("\n")),
        Err(reason) => Err(reason),
    }
}

/// The answer to a request to open a debug session, once its event was
/// written, or was not.
pub fn started_response(write: WorkerArtifactWrite, written: bool) -> (response: WorkerResponse)
    ensures
        response matches WorkerResponse::Done { summary, writes } && summary@
            == "debug session started"@ && writes@ == (if written {
            seq![write]
        } else {
            seq![]
        }),
{
    let writes: Vec<WorkerArtifactWrite> = if written {
        vec![write]
    } else {
        Vec::new()
    };
    assert(writes@ =~= if written {
        seq![write]
    } else {
        seq![]
    });
    WorkerResponse::ok_with_writes("debug session started", writes)
}

/// The transcript of a command and its output.
pub open spec fn transcript_text(command: Seq<char>, output: Seq<char>) -> Seq<char> {
    "> "@ + command + "\n"@ + output + "\n"@
}

/// What is written of a command's output, and what is answered.
pub open spec fn is_command_plan(
    plan: WritePlan,
    context: CommandContext,
    output: Seq<char>,
    now: Timestamp,
) -> bool {
    let session = context.session_id.id@;
    let operation = context.operation_id.id@;
    let dir = context.artifact_dir@;
    let transcript = transcript_text(context.command@, output);
    &&& file_views(plan.files@) == seq![
        FileView::CreateParent(under(dir, seq!["raw"@, operation + ".txt"@])),
        FileView::WriteText(under(dir, seq!["raw"@, operation + ".txt"@]), output),
        FileView::AppendText(under(dir, seq!["transcript.log"@]), transcript),
        FileView::AppendEvent(
            under(dir, seq!["events.jsonl"@]),
            output_event(session, operation, context.command@, now, text::byte_len(output)),
        ),
    ]
    &&& plan.response matches WorkerResponse::DebugCommand { result, writes }
    &&& result.session_id == context.session_id
    &&& result.operation_id is None
    &&& result.command@ == context.command@
    &&& result.output@ == output
    &&& result.final_state == Some(DebugSessionState::Ready)
    &&& result.raw_output is None
    &&& result.warnings@.len() == 0
    &&& result.error is None
    &&& writes@.len() == 3
    &&& is_write(
        writes@[0],
        session,
        "raw/"@ + operation + ".txt"@,
        "debug.raw_output"@,
        text::byte_len(output),
        context.description@,
    )
    &&& is_write(
        writes@[1],
        session,
        "transcript.log"@,
        "debug.transcript"@,
        text::byte_len(transcript),
        "debug session transcript"@,
    )
    &&& is_write(
        writes@[2],
        session,
        "events.jsonl"@,
        "debug.events"@,
        text::byte_len(output),
        "debug session events"@,
    )
}

/// What is written of a command's output, and what is answered.
pub fn write_command_response(context: CommandContext, output: String, now: Timestamp) -> (plan:
    WritePlan)
    ensures
        is_command_plan(plan, context, output@, now),
{
    let session: String = context.session_id.id.as_str().to_owned();
    let raw_name: String = context.operation_id.id.as_str().to_owned().concat(".txt");
    let raw_suffix: String = "raw/".to_owned().concat(context.operation_id.id.as_str()).concat(
        ".txt",
    );
    let transcript: String = "> ".to_owned().concat(context.command.as_str()).concat("\n").concat(
        output.as_str(),
    ).concat("\n");
    let output_len: u64 = text::utf8_len(output.as_str());
    let transcript_len: u64 = text::utf8_len(transcript.as_str());
    let event: Json = output_document(
        session.as_str(),
        context.operation_id.id.as_str(),
        context.command.as_str(),
        now,
        output_len,
    );
    let raw_path: JoinedPath = JoinedPath::below(&context.artifact_dir, "raw").join(
        raw_name.as_str(),
    );
    assert(raw_path@.names =~= seq!["raw"@, context.operation_id.id@ + ".txt"@]);
    let files: Vec<FileWrite> = vec![
        FileWrite::CreateParent(raw_path.clone()),
        FileWrite::WriteText { path: raw_path, text: output.clone() },
        FileWrite::AppendText {
            path: JoinedPath::below(&context.artifact_dir, "transcript.log"),
            text: transcript,
        },
        FileWrite::AppendEvent {
            path: JoinedPath::below(&context.artifact_dir, "events.jsonl"),
            event,
        },
    ];
    let writes: Vec<WorkerArtifactWrite> = vec![
        artifact_write(
            session.as_str(),
            raw_suffix.as_str(),
            "debug.raw_output",
            output_len,
            context.description,
        ),
        artifact_write(
            session.as_str(),
            "transcript.log",
            "debug.transcript",
            transcript_len,
            "debug session transcript",
        ),
        artifact_write(
            session.as_str(),
            "events.jsonl",
            "debug.events",
            output_len,
            "debug session events",
        ),
    ];
    let ghost given = context;
    let plan: WritePlan = WritePlan {
        files,
        response: WorkerResponse::DebugCommand {
            result: DebugCommandResult {
                session_id: context.session_id,
                operation_id: None,
                command: context.command,
                output,
                final_state: Some(DebugSessionState::Ready),
                raw_output: None,
                warnings: Vec::new(),
                error: None,
            },
            writes,
        },
    };
    assert(file_views(plan.files@) =~= seq![
        FileView::CreateParent(
            under(given.artifact_dir@, seq!["raw"@, given.operation_id.id@ + ".txt"@]),
        ),
        FileView::WriteText(
            under(given.artifact_dir@, seq!["raw"@, given.operation_id.id@ + ".txt"@]),
            output@,
        ),
        FileView::AppendText(
            under(given.artifact_dir@, seq!["transcript.log"@]),
            transcript_text(given.command@, output@),
        ),
        FileView::AppendEvent(
            under(given.artifact_dir@, seq!["events.jsonl"@]),
            output_event(
                given.session_id.id@,
                given.operation_id.id@,
                given.command@,
                now,
                text::byte_len(output@),
            ),
        ),
    ]);
    plan
}

/// What running a command gave: what is written and answered, or the failure.
pub fn finish_command(context: CommandContext, reply: Option<TextReply>, now: Timestamp) -> (plan:
    Result<WritePlan, WorkerResponse>)
    ensures
        match (dbgeng::text_refusal(reply), plan) {
            (Some(reason), Err(response)) => worker_protocol::is_failed(
                response,
                "operation_failed"@,
                reason,
            ),
            (None, Ok(made)) => is_command_plan(
                made,
                context,
                text::lossy_text(dbgeng::given_bytes(reply->0)),
                now,
            ),
            _ => false,
        },
{
    match text_from_reply(reply) {
        Err(error) => Err(WorkerResponse::failed("operation_failed", error.message().as_str())),
        Ok(output) => Ok(write_command_response(context, output, now)),
    }
}

/// What is written of memory that was read, and what is answered.
pub open spec fn is_memory_plan(plan: WritePlan, context: MemoryContext, bytes: Seq<u8>) -> bool {
    let session = context.session_id.id@;
    let operation = context.operation_id.id@;
    let dir = context.artifact_dir@;
    &&& file_views(plan.files@) == seq![
        FileView::CreateParent(under(dir, seq!["memory"@, operation + ".bin"@])),
        FileView::WriteBytes(under(dir, seq!["memory"@, operation + ".bin"@]), bytes),
    ]
    &&& plan.response matches WorkerResponse::DebugMemory { result, writes }
    &&& result.session_id == context.session_id
    &&& result.operation_id is None
    &&& result.address == context.address
    &&& result.requested_length == context.length
    &&& result.bytes_read == bytes.len()
    &&& result.memory is None
    &&& result.warnings@.len() == 0
    &&& result.error is None
    &&& writes@.len() == 1
    &&& is_write(
        writes@[0],
        session,
        "memory/"@ + operation + ".bin"@,
        "debug.memory"@,
        bytes.len() as u64,
        "debug memory read"@,
    )
}

/// What is written of memory that was read, and what is answered.
pub fn write_memory_response(context: MemoryContext, bytes: Vec<u8>) -> (plan: WritePlan)
    ensures
        is_memory_plan(plan, context, bytes@),
{
    let name: String = context.operation_id.id.as_str().to_owned().concat(".bin");
    let suffix: String = "memory/".to_owned().concat(context.operation_id.id.as_str()).concat(
        ".bin",
    );
    let len: u64 = bytes.len() as u64;
    let file: JoinedPath = JoinedPath::below(&context.artifact_dir, "memory").join(name.as_str());
    assert(file@.names =~= seq!["memory"@, context.operation_id.id@ + ".bin"@]);
    let write: WorkerArtifactWrite = artifact_write(
        context.session_id.id.as_str(),
        suffix.as_str(),
        "debug.memory",
        len,
        "debug memory read",
    );
    let ghost given = context;
    let plan: WritePlan = WritePlan {
        files: vec![
            FileWrite::CreateParent(file.clone()),
            FileWrite::WriteBytes { path: file, bytes },
        ],
        response: WorkerResponse::DebugMemory {
            result: DebugMemoryResult {
                session_id: context.session_id,
                operation_id: None,
                address: context.address,
                requested_length: context.length as u64,
                bytes_read: len,
                memory: None,
                warnings: Vec::new(),
                error: None,
            },
            writes: vec![write],
        },
    };
    assert(file_views(plan.files@) =~= seq![
        FileView::CreateParent(
            under(given.artifact_dir@, seq!["memory"@, given.operation_id.id@ + ".bin"@]),
        ),
        FileView::WriteBytes(
            under(given.artifact_dir@, seq!["memory"@, given.operation_id.id@ + ".bin"@]),
            bytes@,
        ),
    ]);
    plan
}

/// What reading memory gave: what is written and answered, or the failure.
pub fn finish_memory(context: MemoryContext, reply: Option<TextReply>) -> (plan: Result<
    WritePlan,
    WorkerResponse,
>)
    ensures
        match (dbgeng::text_refusal(reply), plan) {
            (Some(reason), Err(response)) => worker_protocol::is_failed(
                response,
                "operation_failed"@,
                reason,
            ),
            (None, Ok(made)) => is_memory_plan(made, context, dbgeng::given_bytes(reply->0)),
            _ => false,
        },
{
    match bytes_from_reply(reply) {
        Err(error) => Err(WorkerResponse::failed("operation_failed", error.message().as_str())),
        Ok(bytes) => Ok(write_memory_response(context, bytes)),
    }
}

/// The answer once everything was written, or the first write failed with a
/// message.
pub fn written_response(response: WorkerResponse, outcome: Result<(), String>) -> (answer:
    WorkerResponse)
    ensures
        match outcome {
            Ok(()) => answer == response,
            Err(reason) => worker_protocol::is_failed(answer, "operation_failed"@, reason@),
        },
{
    match outcome {
        Ok(()) => response,
        Err(reason) => WorkerResponse::failed("operation_failed", reason.as_str()),
    }
}

/// The answer to a lookup.
pub fn finish_reverse_lookup(found: Result<FunctionLookup, IdaError>) -> (response: WorkerResponse)
    ensures
        match found {
            Ok(lookup) => {
                &&& response matches WorkerResponse::ReverseFunctionLookup { result, writes }
                &&& writes@.len() == 0
                &&& result == (ReverseFunctionLookupResult {
                    runtime_address: lookup.runtime_address,
                    runtime_module_base: lookup.runtime_module_base,
                    rva: lookup.rva,
                    ida_image_base: lookup.ida_image_base,
                    ida_ea: lookup.ida_ea,
                    function_start: lookup.function_start,
                    function_end: lookup.function_end,
                    function_name: lookup.function_name,
                    found: lookup.found,
                })
            },
            Err(error) => worker_protocol::is_failed(
                response,
                "reverse_lookup_failed"@,
                ida::ida_error_text(error),
            ),
        },
{
    match found {
        Ok(lookup) => WorkerResponse::ReverseFunctionLookup {
            result: ReverseFunctionLookupResult {
                runtime_address: lookup.runtime_address,
                runtime_module_base: lookup.runtime_module_base,
                rva: lookup.rva,
                ida_image_base: lookup.ida_image_base,
                ida_ea: lookup.ida_ea,
                function_start: lookup.function_start,
                function_end: lookup.function_end,
                function_name: lookup.function_name,
                found: lookup.found,
            },
            writes: Vec::new(),
        },
        Err(error) => WorkerResponse::failed("reverse_lookup_failed", error.message().as_str()),
    }
}

/// The answer to a core function.
pub fn finish_reverse_core(found: Result<CoreFunctionResult, IdaError>) -> (response:
    WorkerResponse)
    ensures
        match found {
            Ok(given) => {
                &&& response matches WorkerResponse::ReverseCoreFunction { result, writes }
                &&& writes@.len() == 0
                &&& result == (ReverseCoreFunctionResult {
                    function: given.function,
                    result: given.result,
                    warnings: given.warnings,
                })
            },
            Err(error) => worker_protocol::is_failed(
                response,
                "reverse_core_failed"@,
                ida::ida_error_text(error),
            ),
        },
{
    match found {
        Ok(given) => WorkerResponse::ReverseCoreFunction {
            result: ReverseCoreFunctionResult {
                function: given.function,
                result: given.result,
                warnings: given.warnings,
            },
            writes: Vec::new(),
        },
        Err(error) => WorkerResponse::failed("reverse_core_failed", error.message().as_str()),
    }
}

/// How often a worker tries to open its pipe.
pub const PIPE_TRIES: u32 = 50;

/// How long it waits after a try that failed.
pub const PIPE_WAIT_MILLIS: u64 = 100;

/// How opening the pipe goes on after a try.
#[derive(Clone, Copy, Debug, PartialEq, Eq, Structural)]
pub enum PipeStep {
    Opened,
    /// It waits, and tries again.
    Retry { millis: u64 },
    /// It waits, and reports the error of the last try.
    GiveUp { millis: u64 },
}

/// How opening the pipe goes on after a try. `tried` counts those before it.
pub fn open_pipe_step(tried: u32, opened: bool) -> (step: PipeStep)
    ensures
        step == (if opened {
            PipeStep::Opened
        } else if tried + 1 < PIPE_TRIES {
            PipeStep::Retry { millis: PIPE_WAIT_MILLIS }
        } else {
            PipeStep::GiveUp { millis: PIPE_WAIT_MILLIS }
        }),
{
    if opened {
        PipeStep::Opened
    } else if tried < PIPE_TRIES - 1 {
        PipeStep::Retry { millis: PIPE_WAIT_MILLIS }
    } else {
        PipeStep::GiveUp { millis: PIPE_WAIT_MILLIS }
    }
}

/// How a request may end the worker.
#[derive(Clone, Copy, Debug, PartialEq, Eq, Structural)]
pub enum RequestEnd {
    /// It does not.
    Never,
    /// Whatever the answer.
    Always,
    /// Where the answer is that it was done.
    WhenDone,
}

/// How a request may end the worker.
pub open spec fn end_of(request: WorkerRequest) -> RequestEnd {
    if request is CloseSession || request is KillSession {
        RequestEnd::Always
    } else if request is CloseReverseSession {
        RequestEnd::WhenDone
    } else {
        RequestEnd::Never
    }
}

/// How a request may end the worker.
pub fn request_end(request: &WorkerRequest) -> (end: RequestEnd)
    ensures
        end == end_of(*request),
{
    match request {
        WorkerRequest::CloseSession { .. } => RequestEnd::Always,
        WorkerRequest::KillSession { .. } => RequestEnd::Always,
        WorkerRequest::CloseReverseSession { .. } => RequestEnd::WhenDone,
        _ => RequestEnd::Never,
    }
}

/// Whether the worker ends behind an answer.
pub fn should_exit(end: RequestEnd, response: &WorkerResponse) -> (exit: bool)
    ensures
        exit == (end == RequestEnd::Always || (end == RequestEnd::WhenDone && *response is Done)),
{
    let done: bool = match response {
        WorkerResponse::Done { .. } => true,
        _ => false,
    };
    match end {
        RequestEnd::Always => true,
        RequestEnd::WhenDone => done,
        RequestEnd::Never => false,
    }
}

/// A request for another session is refused and changes nothing, whatever it
/// asks.
pub proof fn law_other_sessions_are_refused(
    expected: Seq<char>,
    session: Option<u64>,
    reverse: bool,
    request: WorkerRequest,
    step: WorkerStep,
)
    requires
        handles(expected, session, reverse, request, step),
        worker_protocol::request_session(request).id@ != expected,
    ensures
        fails(
            step,
            "session_mismatch"@,
            "worker session is "@ + expected + ", request was for "@
                + worker_protocol::request_session(request).id@,
        ),
        !ends_session(expected, request),
{
}

/// A native debug session is used only by a worker that holds it, and it is
/// given up only when the session ends.
pub proof fn law_native_sessions_are_kept(
    expected: Seq<char>,
    session: Option<u64>,
    reverse: bool,
    request: WorkerRequest,
    step: WorkerStep,
)
    requires
        handles(expected, session, reverse, request, step),
    ensures
        step matches WorkerStep::Respond { release, .. } ==> (release is Some ==> release == session
            && ends_session(expected, request)),
        step matches WorkerStep::RunDebug { call: DbgEngCall::Execute { handle, .. }, .. }
            ==> session == Some(handle),
        step matches WorkerStep::RunDebug { call: DbgEngCall::AddSymbols { handle, .. }, .. }
            ==> session == Some(handle),
        step matches WorkerStep::ReadDebug { call: DbgEngCall::ReadVirtual { handle, .. }, .. }
            ==> session == Some(handle),
        step is AskReverse || step is CloseReverse ==> reverse,
        step is OpenReverse ==> !reverse,
        ends_session(expected, request) ==> (step matches WorkerStep::Respond {
            release,
            drop_reverse,
            ..
        } && release == session && drop_reverse == reverse),
{
}

/// Every file that the answer to a command names is one that was written: the
/// raw output as a whole, once its directory was made, and the transcript and
/// the events at their end.
pub proof fn law_named_files_were_written(
    plan: WritePlan,
    context: CommandContext,
    output: Seq<char>,
    now: Timestamp,
)
    requires
        is_command_plan(plan, context, output, now),
    ensures
        ({
            let files = file_views(plan.files@);
            let writes = worker_protocol::response_writes(plan.response)@;
            let dir = context.artifact_dir@;
            let raw = context.operation_id.id@ + ".txt"@;
            &&& writes[0].relative_path@.names.last() == "raw"@ + "/"@ + raw
            &&& files[0] == FileView::CreateParent(under(dir, seq!["raw"@, raw]))
            &&& files[1] == FileView::WriteText(under(dir, seq!["raw"@, raw]), output)
            &&& writes[0].byte_len == text::byte_len(output)
            &&& files[2] matches FileView::AppendText(path, _) && path.names == seq![
                writes[1].relative_path@.names.last(),
            ]
            &&& files[3] matches FileView::AppendEvent(path, _) && path.names == seq![
                writes[2].relative_path@.names.last(),
            ]
        }),
{
    reveal_strlit("raw");
    reveal_strlit("/");
    reveal_strlit("raw/");
    let raw = context.operation_id.id@ + ".txt"@;
    assert("raw/"@ =~= "raw"@ + "/"@);
    assert("raw/"@ + context.operation_id.id@ + ".txt"@ =~= "raw"@ + "/"@ + raw);
}

} // verus!
