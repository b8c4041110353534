//! Laws on the worker of a session.

use crate::dbgeng::{
    session_from_reply, text_from_reply, DbgEngCall, DbgEngError, DbgEngSession, OpenReply,
    TextReply,
};
use crate::debug::{DebugSessionState, DebugTarget};
use crate::ida::{
    CoreFunctionResult, FunctionLookup, HostAction, IdaCommand, IdaError, IdaSession, SessionEvent,
    SessionOutput,
};
use crate::json::{Json, JsonView};
use crate::laws::document::{has_fields, holds, refers};
use crate::laws::text::all_white;
use crate::model::{SessionRef, Timestamp};
use crate::path::HostPath;
use crate::worker::{
    event_line, finish_command, finish_memory, finish_reverse_core, finish_reverse_lookup,
    open_pipe_step, request_end, should_exit, start_session, started_response,
    write_command_response, write_memory_response, written_response, CommandContext, FileWrite,
    MemoryContext, PipeStep, RequestEnd, SessionStarted, WorkerArgs, WorkerState, WorkerStep,
    WritePlan,
};
use crate::worker_protocol::{WorkerArtifactWrite, WorkerRequest, WorkerResponse};
use crate::{json, laws, path, text, worker};
use vstd::prelude::*;
use vstd::string::*;
use vstd::utf8::*;

verus! {

/// The session that a request is for.
pub open spec fn asked_of(request: WorkerRequest) -> SessionRef {
    match request {
        WorkerRequest::StartDebugSession { session_id, target, artifact_dir } => session_id,
        WorkerRequest::EvalDebugCommand { session_id, .. } => session_id,
        WorkerRequest::AddSymbols { session_id, .. } => session_id,
        WorkerRequest::ReadMemory { session_id, .. } => session_id,
        WorkerRequest::OpenReverseSession { session_id, .. } => session_id,
        WorkerRequest::LookupReverseFunction { session_id, .. } => session_id,
        WorkerRequest::ReverseCoreFunction { session_id, .. } => session_id,
        WorkerRequest::CloseReverseSession { session_id } => session_id,
        WorkerRequest::CloseSession { session_id } => session_id,
        WorkerRequest::KillSession { session_id } => session_id,
        WorkerRequest::CancelOperation { session_id, .. } => session_id,
    }
}

/// The request names its own session.
pub proof fn law_requests_name_their_session(request: WorkerRequest, session: &SessionRef)
    requires
        call_ensures(WorkerRequest::session_id, (&request,), session),
    ensures
        *session == asked_of(request),
{
}

/// The answer is a failure of that code.
pub open spec fn refused(step: WorkerStep, code: Seq<char>) -> bool {
    &&& step matches WorkerStep::Respond { response, release, drop_reverse }
    &&& response matches WorkerResponse::Failed { code: given, .. } && given@ == code
    &&& release is None
    &&& !drop_reverse
}

/// The answer is a failure of that code that says this, and names no file.
pub open spec fn failed_saying(
    response: WorkerResponse,
    code: Seq<char>,
    message: Seq<char>,
) -> bool {
    response matches WorkerResponse::Failed { code: given, message: told, writes } && given@
        == code && told@ == message && writes@.len() == 0
}

/// The answer is that it was done, says this, and names no file.
pub open spec fn done_saying(response: WorkerResponse, summary: Seq<char>) -> bool {
    response matches WorkerResponse::Done { summary: told, writes } && told@ == summary
        && writes@.len() == 0
}

/// The text can be handed to the debugger.
pub open spec fn can_be_handed_on(text: Seq<char>) -> bool {
    !all_white(text) && !encode_utf8(text).contains(0u8)
}

/// A worker serves its own session alone; a request for another one is refused
/// and changes nothing. It gives up what it holds when the session ends, all
/// of it, and never else.
pub proof fn law_workers_serve_their_own_session(
    state: &mut WorkerState,
    request: WorkerRequest,
    step: WorkerStep,
)
    requires
        call_ensures(WorkerState::handle_request, (state, request), step),
    ensures
        final(state).expected() == old(state).expected(),
        asked_of(request).id@ != old(state).expected() ==> refused(step, "session_mismatch"@),
        asked_of(request).id@ == old(state).expected() && (request is CloseSession
            || request is KillSession) ==> {
            &&& step matches WorkerStep::Respond { response, release, drop_reverse }
            &&& response is Done
            &&& release == old(state).session_handle()
            &&& drop_reverse == old(state).has_reverse()
            &&& final(state).session_handle() is None
            &&& !final(state).has_reverse()
        },
        asked_of(request).id@ != old(state).expected() || !(request is CloseSession
            || request is KillSession) ==> {
            &&& final(state).session_handle() == old(state).session_handle()
            &&& final(state).has_reverse() == old(state).has_reverse()
            &&& step matches WorkerStep::Respond { release, drop_reverse, .. } ==> release is None
                && !drop_reverse
        },
        asked_of(request).id@ == old(state).expected() && request is CancelOperation ==> (step
            matches WorkerStep::Respond { response, .. } && response is Done),
{
}

/// A debug session is opened on the dump or process that the request names.
pub proof fn law_debug_sessions_are_opened_on_the_target(
    state: &mut WorkerState,
    request: WorkerRequest,
    step: WorkerStep,
)
    requires
        call_ensures(WorkerState::handle_request, (state, request), step),
        asked_of(request).id@ == old(state).expected(),
        request is StartDebugSession,
    ensures
        step is OpenDebug || refused(step, "start_failed"@) || refused(step, "unsupported_target"@),
        step matches WorkerStep::OpenDebug { call, artifact_dir } ==> {
            &&& artifact_dir == request->StartDebugSession_artifact_dir
            &&& match request->target {
                DebugTarget::Dump { path } => call matches DbgEngCall::OpenDump { path: bytes }
                    && bytes@ == encode_utf8(path@.text),
                DebugTarget::Attach { pid } => call matches DbgEngCall::AttachProcess { pid: to }
                    && to == pid,
                DebugTarget::Launch { .. } => false,
            }
        },
        request->target matches DebugTarget::Dump { path } ==> (step is OpenDebug <==> path@.raw
            is None && path@.text.len() > 0 && !encode_utf8(path@.text).contains(0u8)),
        request->target matches DebugTarget::Attach { pid } ==> (step is OpenDebug <==> pid != 0),
        request->target is Launch ==> refused(step, "unsupported_target"@),
{
}

/// A command is run in the session that the worker holds, as it was given, and
/// its output goes where the request says.
pub proof fn law_commands_are_run_in_the_session(
    state: &mut WorkerState,
    request: WorkerRequest,
    step: WorkerStep,
)
    requires
        call_ensures(WorkerState::handle_request, (state, request), step),
        asked_of(request).id@ == old(state).expected(),
    ensures
        request matches WorkerRequest::EvalDebugCommand {
            session_id,
            operation_id,
            command,
            artifact_dir,
        } ==> {
            &&& old(state).session_handle() is None ==> refused(step, "session_not_started"@)
            &&& old(state).session_handle() is Some ==> (step is RunDebug <==> can_be_handed_on(
                command@,
            )) && (!(step is RunDebug) ==> refused(step, "operation_failed"@))
            &&& step matches WorkerStep::RunDebug { call, context } ==> {
                &&& call matches DbgEngCall::Execute { handle, command: bytes }
                &&& Some(handle) == old(state).session_handle()
                &&& bytes@ == encode_utf8(command@)
                &&& context.session_id == session_id
                &&& context.operation_id == operation_id
                &&& context.command@ == command@
                &&& context.artifact_dir == artifact_dir
            }
        },
        request matches WorkerRequest::AddSymbols {
            session_id,
            operation_id,
            symbol_path,
            reload,
            artifact_dir,
        } ==> {
            &&& old(state).session_handle() is None ==> refused(step, "session_not_started"@)
            &&& old(state).session_handle() is Some ==> (step is RunDebug <==> can_be_handed_on(
                symbol_path@,
            )) && (!(step is RunDebug) ==> refused(step, "operation_failed"@))
            &&& step matches WorkerStep::RunDebug { call, context } ==> {
                &&& call matches DbgEngCall::AddSymbols {
                    handle,
                    symbol_path: bytes,
                    reload: flag,
                }
                &&& Some(handle) == old(state).session_handle()
                &&& bytes@ == encode_utf8(symbol_path@)
                &&& flag == if reload {
                    1i32
                } else {
                    0i32
                }
                &&& context.session_id == session_id
                &&& context.operation_id == operation_id
                &&& context.artifact_dir == artifact_dir
                &&& reload ==> context.command@ == "add_symbols "@ + symbol_path@ + " --reload"@
                &&& !reload ==> context.command@ == "add_symbols "@ + symbol_path@
            }
        },
        request matches WorkerRequest::ReadMemory {
            session_id,
            operation_id,
            address,
            length,
            artifact_dir,
        } ==> {
            &&& old(state).session_handle() is None ==> refused(step, "session_not_started"@)
            &&& old(state).session_handle() is Some ==> (step is ReadDebug <==> 1 <= length
                <= 4294967295) && (!(step is ReadDebug) ==> refused(step, "operation_failed"@))
            &&& step matches WorkerStep::ReadDebug { call, context } ==> {
                &&& call matches DbgEngCall::ReadVirtual { handle, address: from, length: count }
                &&& Some(handle) == old(state).session_handle()
                &&& from == address
                &&& count == length
                &&& context.session_id == session_id
                &&& context.operation_id == operation_id
                &&& context.address == address
                &&& context.length == length
                &&& context.artifact_dir == artifact_dir
            }
        },
{
    match request {
        WorkerRequest::EvalDebugCommand { command, .. } => {
            laws::text::lemma_blank_is_white(command@);
        },
        WorkerRequest::AddSymbols { symbol_path, .. } => {
            laws::text::lemma_blank_is_white(symbol_path@);
        },
        _ => {},
    }
}

/// A reverse session is opened where none is open, and is asked and closed
/// where one is; it is asked what the request asks.
pub proof fn law_reverse_requests_reach_the_session(
    state: &mut WorkerState,
    request: WorkerRequest,
    step: WorkerStep,
)
    requires
        call_ensures(WorkerState::handle_request, (state, request), step),
        asked_of(request).id@ == old(state).expected(),
    ensures
        request is OpenReverseSession ==> {
            &&& old(state).has_reverse() ==> refused(step, "reverse_session_exists"@)
            &&& !old(state).has_reverse() ==> (step matches WorkerStep::OpenReverse {
                install_dir,
                database_path,
            } && install_dir == request->ida_install_dir && database_path == request->database_path)
        },
        request is LookupReverseFunction || request is ReverseCoreFunction
            || request is CloseReverseSession ==> (!old(state).has_reverse() ==> refused(
            step,
            "reverse_session_not_found"@,
        )),
        old(state).has_reverse() ==> match request {
            WorkerRequest::LookupReverseFunction {
                runtime_address,
                runtime_module_base,
                ida_image_base,
                ..
            } => {
                &&& step matches WorkerStep::AskReverse {
                    command: IdaCommand::Lookup {
                        runtime_address: at,
                        runtime_module_base: module,
                        ida_image_base: image,
                    },
                }
                &&& at == runtime_address
                &&& module == runtime_module_base
                &&& image == ida_image_base
            },
            WorkerRequest::ReverseCoreFunction { function, arguments, .. } => {
                &&& step matches WorkerStep::AskReverse {
                    command: IdaCommand::Core { function: named, arguments: given },
                }
                &&& named == function
                &&& given == arguments
            },
            WorkerRequest::CloseReverseSession { .. } => step is CloseReverse,
            _ => true,
        },
        step is OpenReverse ==> request is OpenReverseSession,
        step is CloseReverse ==> request is CloseReverseSession,
{
}

/// A request to open a reverse session leads to a native session with the
/// install directory and on the database that the request names: the host is
/// asked for that directory and for the two libraries in it, loads the adapter
/// for it, and then opens the native session with the two paths as C strings,
/// each in its own place.
pub proof fn law_reverse_sessions_are_opened_on_the_database(
    state: &mut WorkerState,
    request: WorkerRequest,
    step: WorkerStep,
    sessions: [IdaSession; 5],
    outputs: [SessionOutput; 4],
    shown: [String; 2],
    actions: [HostAction; 5],
)
    requires
        call_ensures(WorkerState::handle_request, (state, request), step),
        request is OpenReverseSession,
        step is OpenReverse,
        call_ensures(
            IdaSession::open,
            (step->OpenReverse_install_dir, step->OpenReverse_database_path, true),
            Ok(sessions[0]),
        ),
        call_ensures(
            IdaSession::advance,
            (sessions[0], SessionEvent::InstallDir { present: true }),
            (sessions[1], outputs[0]),
        ),
        call_ensures(
            IdaSession::advance,
            (sessions[1], SessionEvent::Dll { present: true, shown: shown[0] }),
            (sessions[2], outputs[1]),
        ),
        call_ensures(
            IdaSession::advance,
            (sessions[2], SessionEvent::Dll { present: true, shown: shown[1] }),
            (sessions[3], outputs[2]),
        ),
        call_ensures(
            IdaSession::advance,
            (sessions[3], SessionEvent::Loaded(Ok(()))),
            (sessions[4], outputs[3]),
        ),
        call_ensures(IdaSession::next_action, (&sessions[0],), actions[0]),
        call_ensures(IdaSession::next_action, (&sessions[1],), actions[1]),
        call_ensures(IdaSession::next_action, (&sessions[2],), actions[2]),
        call_ensures(IdaSession::next_action, (&sessions[3],), actions[3]),
        call_ensures(IdaSession::next_action, (&sessions[4],), actions[4]),
    ensures
        ({
            let asked = request->ida_install_dir@;
            let database = request->database_path@;
            &&& actions[0] matches HostAction::ProbeInstallDir(dir) && dir@ == asked
            &&& actions[1] matches HostAction::ProbeDll(file) && file@.base == asked && file@.names
                == seq!["ida.dll"@]
            &&& actions[2] matches HostAction::ProbeDll(file) && file@.base == asked && file@.names
                == seq!["idalib.dll"@]
            &&& actions[3] matches HostAction::LoadAdapter(dir) && dir@ == asked
            &&& actions[4] matches HostAction::OpenSession { install_dir, database_path }
                && install_dir@ == encode_utf8(asked.text) && database_path@ == encode_utf8(
                database.text,
            )
        }),
{
    text::lemma_nul_bytes(request->ida_install_dir@.text);
    text::lemma_nul_bytes(request->database_path@.text);
}

/// A reverse session counts as open once it was opened, and no longer once it
/// was closed; a failure changes nothing.
pub proof fn law_reverse_sessions_are_open_until_closed(
    state: &mut WorkerState,
    outcome: Result<(), IdaError>,
    response: WorkerResponse,
    told: String,
)
    requires
        outcome is Err ==> call_ensures(IdaError::message, (&outcome->Err_0,), told),
    ensures
        call_ensures(WorkerState::finish_reverse_open, (state, outcome), response) ==> {
            &&& outcome is Ok ==> final(state).has_reverse() && (response
                matches WorkerResponse::ReverseSessionOpened { writes } && writes@.len() == 0)
            &&& outcome is Err ==> final(state).has_reverse() == old(state).has_reverse()
                && failed_saying(response, "reverse_open_failed"@, told@)
            &&& final(state).session_handle() == old(state).session_handle()
            &&& final(state).expected() == old(state).expected()
        },
        call_ensures(WorkerState::finish_reverse_close, (state, outcome), response) ==> {
            &&& outcome is Ok ==> !final(state).has_reverse() && done_saying(
                response,
                "reverse session closed"@,
            )
            &&& outcome is Err ==> final(state).has_reverse() == old(state).has_reverse()
                && failed_saying(response, "reverse_close_failed"@, told@)
            &&& final(state).session_handle() == old(state).session_handle()
            &&& final(state).expected() == old(state).expected()
        },
{
}

/// A debug session that was opened is the one that the worker then holds; the
/// one before it is given back to be closed, and an event tells that the
/// session is ready. Where none was opened nothing changes.
pub proof fn law_opened_sessions_are_held(
    state: &mut WorkerState,
    reply: Option<OpenReply>,
    artifact_dir: HostPath,
    now: Timestamp,
    outcome: Result<SessionStarted, WorkerResponse>,
)
    requires
        call_ensures(WorkerState::finish_start, (state, reply, &artifact_dir, now), outcome),
    ensures
        outcome is Ok <==> reply is Some && reply->0.outcome.status == 0 && reply->0.handle != 0,
        final(state).expected() == old(state).expected(),
        final(state).has_reverse() == old(state).has_reverse(),
        outcome matches Err(response) ==> response is Failed && final(state).session_handle()
            == old(state).session_handle(),
        outcome matches Ok(started) ==> {
            &&& final(state).session_handle() == Some(reply->0.handle)
            &&& started.release == old(state).session_handle()
            &&& started.file matches FileWrite::AppendEvent { path, event }
            &&& path@.base == artifact_dir@
            &&& path@.names == seq!["events.jsonl"@]
            &&& has_fields(event@, 4)
            &&& holds(event@, "event"@, JsonView::Text("state_changed"@))
            &&& holds(event@, "state"@, JsonView::Text("ready"@))
            &&& names_ref(event@, "session_id"@, old(state).expected())
            &&& names_moment(event@, now)
            &&& is_file_of(started.write, old(state).expected(), "events.jsonl"@)
            &&& started.write.kind@ == "debug.events"@
            &&& started.write.byte_len == 0
            &&& is_described(started.write, "debug session events"@)
        },
{
    if let Ok(started) = outcome {
        let event = started.file->event@;
        let fields = event->Object_0;
        assert(fields[0] == ("event"@, JsonView::Text("state_changed"@)));
        assert(fields[2] == ("state"@, JsonView::Text("ready"@)));
        lemma_names_ref(event, 1, "session_id"@, old(state).expected());
        lemma_names_moment(event, 3, now);
    }
}

/// A field of the document refers to the identifier.
pub open spec fn names_ref(document: JsonView, name: Seq<char>, id: Seq<char>) -> bool {
    exists|value: JsonView|
        #![trigger refers(value, id)]
        holds(document, name, value) && refers(value, id)
}

/// The document tells of the moment.
pub open spec fn names_moment(document: JsonView, now: Timestamp) -> bool {
    exists|value: JsonView|
        #![trigger holds(document, "timestamp"@, value)]
        holds(document, "timestamp"@, value) && has_fields(value, 1) && holds(
            value,
            "unix_millis"@,
            JsonView::Uint(now.unix_millis),
        )
}

proof fn lemma_names_ref(document: JsonView, at: int, name: Seq<char>, id: Seq<char>)
    requires
        document is Object,
        0 <= at < document->Object_0.len(),
        document->Object_0[at] == (name, worker::ref_document(id)),
    ensures
        names_ref(document, name, id),
{
    let value = worker::ref_document(id);
    assert(value->Object_0[0] == ("id"@, JsonView::Text(id)));
    assert(holds(document, name, value));
    assert(refers(value, id));
}

proof fn lemma_names_moment(document: JsonView, at: int, now: Timestamp)
    requires
        document is Object,
        0 <= at < document->Object_0.len(),
        document->Object_0[at] == ("timestamp"@, worker::time_document(now)),
    ensures
        names_moment(document, now),
{
    let value = worker::time_document(now);
    assert(value->Object_0[0] == ("unix_millis"@, JsonView::Uint(now.unix_millis)));
    assert(holds(document, "timestamp"@, value));
}

/// The file stands in the directory of the session, below the artifacts.
pub open spec fn is_file_of(write: WorkerArtifactWrite, session: Seq<char>, name: Seq<char>) -> bool {
    &&& write.relative_path@.base.text == "artifacts"@
    &&& write.relative_path@.names == seq!["sessions"@, session, name]
}

/// The output of a command is written as it is, to a file of the operation;
/// the transcript shows the command and the output, an event tells of them,
/// and the answer carries them and names the three files with their lengths.
pub proof fn law_command_output_is_kept(
    context: CommandContext,
    output: String,
    now: Timestamp,
    plan: WritePlan,
)
    requires
        call_ensures(write_command_response, (context, output, now), plan),
    ensures
        keeps_output(plan, context, output@, now),
{
    lemma_keeps_output(plan, context, output@, now);
}

pub open spec fn keeps_output(
    plan: WritePlan,
    context: CommandContext,
    output: Seq<char>,
    now: Timestamp,
) -> bool {
    let session = context.session_id.id@;
    let operation = context.operation_id.id@;
    let shown = "> "@ + context.command@ + "\n"@ + output + "\n"@;
    let size = encode_utf8(output).len() as usize as u64;
    &&& plan.files@.len() == 4
    &&& plan.files@[0] matches FileWrite::CreateParent(made) && made@.base == context.artifact_dir@
        && made@.names == seq!["raw"@, operation + ".txt"@]
    &&& plan.files@[1] matches FileWrite::WriteText { path, text } && path@ == (
    plan.files@[0]->CreateParent_0)@ && text@ == output
    &&& plan.files@[2] matches FileWrite::AppendText { path, text } && path@.base
        == context.artifact_dir@ && path@.names == seq!["transcript.log"@] && text@ == shown
    &&& plan.files@[3] matches FileWrite::AppendEvent { path, event } && path@.base
        == context.artifact_dir@ && path@.names == seq!["events.jsonl"@] && tells_of_output(
        event@,
        session,
        operation,
        context.command@,
        now,
        size,
    )
    &&& plan.response matches WorkerResponse::DebugCommand { result, writes }
    &&& result.session_id == context.session_id
    &&& result.operation_id is None
    &&& result.command@ == context.command@
    &&& result.output@ == output
    &&& result.raw_output is None
    &&& result.warnings@.len() == 0
    &&& result.error is None
    &&& result.final_state == Some(DebugSessionState::Ready)
    &&& writes@.len() == 3
    &&& is_file_of(writes@[0], session, "raw/"@ + operation + ".txt"@)
    &&& writes@[0].kind@ == "debug.raw_output"@
    &&& writes@[0].byte_len == size
    &&& is_described(writes@[0], context.description@)
    &&& is_file_of(writes@[1], session, "transcript.log"@)
    &&& writes@[1].kind@ == "debug.transcript"@
    &&& writes@[1].byte_len == encode_utf8(shown).len() as usize as u64
    &&& is_described(writes@[1], "debug session transcript"@)
    &&& is_file_of(writes@[2], session, "events.jsonl"@)
    &&& writes@[2].kind@ == "debug.events"@
    &&& writes@[2].byte_len == size
    &&& is_described(writes@[2], "debug session events"@)
}

/// The file is described so.
pub open spec fn is_described(write: WorkerArtifactWrite, description: Seq<char>) -> bool {
    write.description matches Some(told) && told@ == description
}

/// The event tells of the output of a command.
pub open spec fn tells_of_output(
    event: JsonView,
    session: Seq<char>,
    operation: Seq<char>,
    command: Seq<char>,
    now: Timestamp,
    size: u64,
) -> bool {
    &&& has_fields(event, 6)
    &&& holds(event, "event"@, JsonView::Text("output"@))
    &&& names_ref(event, "session_id"@, session)
    &&& names_ref(event, "operation_id"@, operation)
    &&& holds(event, "command"@, JsonView::Text(command))
    &&& names_moment(event, now)
    &&& holds(event, "byte_len"@, JsonView::Uint(size))
}

proof fn lemma_keeps_output(
    plan: WritePlan,
    context: CommandContext,
    output: Seq<char>,
    now: Timestamp,
)
    requires
        worker::is_command_plan(plan, context, output, now),
    ensures
        keeps_output(plan, context, output, now),
{
    let views = worker::file_views(plan.files@);
    assert(views.len() == plan.files@.len());
    assert(views[0] == plan.files@[0]@);
    assert(views[1] == plan.files@[1]@);
    assert(views[2] == plan.files@[2]@);
    assert(views[3] == plan.files@[3]@);
    let event = plan.files@[3]->event@;
    let fields = event->Object_0;
    assert(fields[0] == ("event"@, JsonView::Text("output"@)));
    assert(fields[3] == ("command"@, JsonView::Text(context.command@)));
    assert(fields[5] == ("byte_len"@, JsonView::Uint(text::byte_len(output))));
    lemma_names_ref(event, 1, "session_id"@, context.session_id.id@);
    lemma_names_ref(event, 2, "operation_id"@, context.operation_id.id@);
    lemma_names_moment(event, 4, now);
}

/// The memory that was read is written as it is, to a file of the operation,
/// and the answer tells how much of what was asked for was read.
pub proof fn law_memory_is_kept(context: MemoryContext, bytes: Vec<u8>, plan: WritePlan)
    requires
        call_ensures(write_memory_response, (context, bytes), plan),
    ensures
        keeps_memory(plan, context, bytes@),
{
    lemma_keeps_memory(plan, context, bytes@);
}

pub open spec fn keeps_memory(plan: WritePlan, context: MemoryContext, bytes: Seq<u8>) -> bool {
    let session = context.session_id.id@;
    let operation = context.operation_id.id@;
    &&& plan.files@.len() == 2
    &&& plan.files@[0] matches FileWrite::CreateParent(made) && made@.base == context.artifact_dir@
        && made@.names == seq!["memory"@, operation + ".bin"@]
    &&& plan.files@[1] matches FileWrite::WriteBytes { path, bytes: kept } && path@ == (
    plan.files@[0]->CreateParent_0)@ && kept@ == bytes
    &&& plan.response matches WorkerResponse::DebugMemory { result, writes }
    &&& result.session_id == context.session_id
    &&& result.address == context.address
    &&& result.requested_length == context.length
    &&& result.bytes_read == bytes.len()
    &&& result.operation_id is None
    &&& result.memory is None
    &&& result.warnings@.len() == 0
    &&& result.error is None
    &&& writes@.len() == 1
    &&& is_file_of(writes@[0], session, "memory/"@ + operation + ".bin"@)
    &&& writes@[0].kind@ == "debug.memory"@
    &&& writes@[0].byte_len == bytes.len() as u64
    &&& is_described(writes@[0], "debug memory read"@)
}

proof fn lemma_keeps_memory(plan: WritePlan, context: MemoryContext, bytes: Seq<u8>)
    requires
        worker::is_memory_plan(plan, context, bytes),
    ensures
        keeps_memory(plan, context, bytes),
{
    let views = worker::file_views(plan.files@);
    assert(views.len() == plan.files@.len());
    assert(views[0] == plan.files@[0]@);
    assert(views[1] == plan.files@[1]@);
}

/// The reply gave bytes: it succeeded, and pointed to something where it has a
/// length.
pub open spec fn gave(reply: Option<TextReply>) -> bool {
    &&& reply matches Some(given)
    &&& given.outcome.status == 0
    &&& given.view.data is Some || given.view.len == 0
}

/// The bytes that the reply gave.
pub open spec fn bytes_given(reply: Option<TextReply>) -> Seq<u8> {
    if reply->0.view.len == 0 {
        Seq::empty()
    } else {
        reply->0.view.data->0@
    }
}

/// What the debugger gave is kept, and where it gave nothing the operation
/// failed and nothing is written.
pub proof fn law_replies_are_kept(
    command: CommandContext,
    memory: MemoryContext,
    reply: Option<TextReply>,
    now: Timestamp,
    command_plan: Result<WritePlan, WorkerResponse>,
    memory_plan: Result<WritePlan, WorkerResponse>,
)
    requires
        call_ensures(finish_command, (command, reply, now), command_plan),
        call_ensures(finish_memory, (memory, reply), memory_plan),
    ensures
        command_plan is Ok <==> gave(reply),
        memory_plan is Ok <==> gave(reply),
        command_plan matches Ok(plan) ==> keeps_output(
            plan,
            command,
            text::lossy_text(bytes_given(reply)),
            now,
        ),
        memory_plan matches Ok(plan) ==> keeps_memory(plan, memory, bytes_given(reply)),
        command_plan matches Err(response) ==> (response matches WorkerResponse::Failed {
            code,
            ..
        } && code@ == "operation_failed"@),
        memory_plan matches Err(response) ==> (response matches WorkerResponse::Failed { code, .. }
            && code@ == "operation_failed"@),
{
    if gave(reply) {
        lemma_keeps_output(command_plan->Ok_0, command, text::lossy_text(bytes_given(reply)), now);
        lemma_keeps_memory(memory_plan->Ok_0, memory, bytes_given(reply));
    }
}

/// A lookup is answered as the session found it, bounds and all.
pub proof fn law_lookups_are_answered(
    found: Result<FunctionLookup, IdaError>,
    response: WorkerResponse,
    told: String,
)
    requires
        call_ensures(finish_reverse_lookup, (found,), response),
        found is Err ==> call_ensures(IdaError::message, (&found->Err_0,), told),
    ensures
        found is Err ==> failed_saying(response, "reverse_lookup_failed"@, told@),
        found matches Ok(lookup) ==> {
            &&& response matches WorkerResponse::ReverseFunctionLookup { result, writes }
            &&& writes@.len() == 0
            &&& result.runtime_address == lookup.runtime_address
            &&& result.runtime_module_base == lookup.runtime_module_base
            &&& result.rva == lookup.rva
            &&& result.ida_image_base == lookup.ida_image_base
            &&& result.ida_ea == lookup.ida_ea
            &&& result.function_name == lookup.function_name
            &&& result.found == lookup.found
            &&& lookup.function_start <= lookup.ida_ea < lookup.function_end ==> {
                &&& result.function_start <= result.ida_ea < result.function_end
                &&& result.function_end - result.function_start == lookup.function_end
                    - lookup.function_start
            }
            &&& result.function_start == lookup.function_start
            &&& result.function_end == lookup.function_end
        },
{
}

/// What a core function gave is answered as it is.
pub proof fn law_core_results_are_answered(
    found: Result<CoreFunctionResult, IdaError>,
    response: WorkerResponse,
    told: String,
)
    requires
        call_ensures(finish_reverse_core, (found,), response),
        found is Err ==> call_ensures(IdaError::message, (&found->Err_0,), told),
    ensures
        found is Err ==> failed_saying(response, "reverse_core_failed"@, told@),
        found matches Ok(given) ==> {
            &&& response matches WorkerResponse::ReverseCoreFunction { result, writes }
            &&& writes@.len() == 0
            &&& result.function == given.function
            &&& result.result == given.result
            &&& result.warnings == given.warnings
        },
{
}

/// An answer stands where everything was written, and is a failure that tells
/// why where it was not.
pub proof fn law_failed_writes_are_told(
    response: WorkerResponse,
    outcome: Result<(), String>,
    answer: WorkerResponse,
)
    requires
        call_ensures(written_response, (response, outcome), answer),
    ensures
        outcome is Ok ==> answer == response,
        outcome matches Err(reason) ==> (answer matches WorkerResponse::Failed {
            code,
            message,
            ..
        } && code@ == "operation_failed"@ && message@ == reason@),
{
}

/// An event that was written is named in the answer, and one that was not is
/// not.
pub proof fn law_written_events_are_named(
    write: WorkerArtifactWrite,
    written: bool,
    response: WorkerResponse,
)
    requires
        call_ensures(started_response, (write, written), response),
    ensures
        response matches WorkerResponse::Done { summary, writes } && summary@
            == "debug session started"@ && writes@.contains(write) == written && writes@.len()
            == if written {
            1int
        } else {
            0int
        },
{
    if written {
        assert(response->Done_writes@[0] == write);
    }
}

/// The worker ends with its session, whatever is answered; closing the reverse
/// session ends it where that was done; no other request does.
pub proof fn law_workers_end_with_their_session(
    request: WorkerRequest,
    end: RequestEnd,
    response: WorkerResponse,
    exit: bool,
)
    requires
        call_ensures(request_end, (&request,), end),
        call_ensures(should_exit, (end, &response), exit),
    ensures
        request is CloseSession || request is KillSession ==> exit,
        request is CloseReverseSession ==> exit == (response is Done),
        !(request is CloseSession || request is KillSession || request is CloseReverseSession)
            ==> !exit,
{
}

/// A pipe that was opened is used; else it is tried fifty times in all, with a
/// tenth of a second behind each try.
pub proof fn law_pipes_are_tried_fifty_times(tried: u32, opened: bool, step: PipeStep)
    requires
        call_ensures(open_pipe_step, (tried, opened), step),
    ensures
        step is Opened <==> opened,
        step is Retry <==> !opened && tried <= 48,
        step matches PipeStep::Retry { millis } ==> millis == 100,
        step matches PipeStep::GiveUp { millis } ==> millis == 100,
{
}

/// The line of an event is its document and a line feed, and nothing in it
/// breaks the line.
pub proof fn law_events_are_single_lines(event: Json, line: Result<String, String>)
    requires
        call_ensures(event_line, (&event,), line),
    ensures
        line is Ok <==> json::compact_text(event@) is Ok,
        line matches Ok(written) ==> {
            &&& written@.len() > 0
            &&& written@.last() == '\n'
            &&& written@.drop_last() == json::compact_text(event@)->Ok_0
            &&& !written@.drop_last().contains('\n')
        },
{
    reveal_strlit("\n");
    if let Ok(written) = line {
        assert(written@.drop_last() =~= json::compact_text(event@)->Ok_0);
    }
}

/// Two options and their values, in either order, start a worker with those
/// values.
pub proof fn law_worker_options_are_read(
    pipe: String,
    session: String,
    names: [String; 2],
    first: Vec<String>,
    second: Vec<String>,
    one: Result<WorkerArgs, String>,
    other: Result<WorkerArgs, String>,
)
    requires
        names[0]@ == "--pipe"@,
        names[1]@ == "--session-id"@,
        first@ == seq![names[0], pipe, names[1], session],
        second@ == seq![names[1], session, names[0], pipe],
        call_ensures(WorkerArgs::parse, (&first,), one),
        call_ensures(WorkerArgs::parse, (&second,), other),
    ensures
        one matches Ok(args) && args.pipe == pipe && args.session_id == session,
        other matches Ok(args) && args.pipe == pipe && args.session_id == session,
{
    reveal_strlit("--pipe");
    reveal_strlit("--session-id");
    assert("--pipe"@.len() != "--session-id"@.len());
    reveal_with_fuel(worker::scan_args, 4);
}

/// A worker is not started without both options, nor with one that it does not
/// know.
pub proof fn law_worker_options_are_required(args: Vec<String>, outcome: Result<WorkerArgs, String>)
    requires
        call_ensures(WorkerArgs::parse, (&args,), outcome),
    ensures
        outcome matches Ok(read) ==> is_value_of(args@, "--pipe"@, read.pipe) && is_value_of(
            args@,
            "--session-id"@,
            read.session_id,
        ),
        args@.len() > 0 && args@[0]@ != "--pipe"@ && args@[0]@ != "--session-id"@ ==> outcome
            is Err,
        args@.len() < 4 ==> outcome is Err,
{
    lemma_scanned(args@, 0, None, None);
    if args@.len() < 4 {
        reveal_with_fuel(worker::scan_args, 3);
    }
}

/// The value stands behind the option.
pub open spec fn is_value_of(args: Seq<String>, name: Seq<char>, value: String) -> bool {
    exists|i: int|
        #![trigger args[i]]
        0 <= i && i + 1 < args.len() && args[i]@ == name && args[i + 1] == value
}

proof fn lemma_scanned(
    args: Seq<String>,
    from: int,
    pipe: Option<String>,
    session: Option<String>,
)
    requires
        0 <= from,
        pipe matches Some(value) ==> is_value_of(args, "--pipe"@, value),
        session matches Some(value) ==> is_value_of(args, "--session-id"@, value),
    ensures
        worker::scan_args(args, from, pipe, session) matches Ok(found) ==> {
            &&& found.0 matches Some(value) ==> is_value_of(args, "--pipe"@, value)
            &&& found.1 matches Some(value) ==> is_value_of(args, "--session-id"@, value)
        },
    decreases args.len() + 1 - from,
{
    if from < args.len() {
        let value = if from + 1 < args.len() {
            Some(args[from + 1])
        } else {
            None
        };
        if args[from]@ == "--pipe"@ {
            lemma_scanned(args, from + 2, value, session);
        } else if args[from]@ == "--session-id"@ {
            lemma_scanned(args, from + 2, pipe, value);
        }
    }
}

/// A new worker is for the session that it was told, and holds none.
pub proof fn law_new_workers_hold_nothing(expected: &str, state: WorkerState)
    requires
        call_ensures(WorkerState::new, (expected,), state),
    ensures
        state.expected() == expected@,
        state.session_handle() is None,
        !state.has_reverse(),
        state.valid(),
{
}

/// A debug session is started on its target.
pub proof fn law_sessions_are_started_on_their_target(
    target: DebugTarget,
    dir: HostPath,
    step: WorkerStep,
)
    requires
        call_ensures(start_session, (target, dir), step),
    ensures
        step matches WorkerStep::OpenDebug { call, artifact_dir } ==> {
            &&& artifact_dir == dir
            &&& match target {
                DebugTarget::Dump { path } => call matches DbgEngCall::OpenDump { path: bytes }
                    && bytes@ == encode_utf8(path@.text),
                DebugTarget::Attach { pid } => call matches DbgEngCall::AttachProcess { pid: to }
                    && to == pid,
                DebugTarget::Launch { .. } => false,
            }
        },
        target matches DebugTarget::Dump { path } ==> (step is OpenDebug <==> path@.raw is None
            && path@.text.len() > 0 && !encode_utf8(path@.text).contains(0u8)),
        target matches DebugTarget::Attach { pid } ==> (step is OpenDebug <==> pid != 0),
        target is Launch ==> refused(step, "unsupported_target"@),
        !(target is Launch) && !(step is OpenDebug) ==> refused(step, "start_failed"@),
{
}

/// A request that is refused is told why, and one that is done at once is told
/// what was done.
pub proof fn law_workers_say_why(
    state: &mut WorkerState,
    request: WorkerRequest,
    step: WorkerStep,
)
    requires
        call_ensures(WorkerState::handle_request, (state, request), step),
        step is Respond,
    ensures
        ({
            let response = step->response;
            if asked_of(request).id@ != old(state).expected() {
                failed_saying(
                    response,
                    "session_mismatch"@,
                    "worker session is "@ + old(state).expected() + ", request was for "@
                        + asked_of(request).id@,
                )
            } else {
                match request {
                    WorkerRequest::StartDebugSession { target, .. } => match target {
                        DebugTarget::Launch { .. } => failed_saying(
                            response,
                            "unsupported_target"@,
                            "launch targets are not supported in MVP1"@,
                        ),
                        DebugTarget::Attach { .. } => failed_saying(
                            response,
                            "start_failed"@,
                            "attach pid must be greater than zero"@,
                        ),
                        DebugTarget::Dump { path } => failed_saying(
                            response,
                            "start_failed"@,
                            if path@.text.len() == 0 {
                                "dump path must not be empty"@
                            } else if path@.raw is Some {
                                "dump path must be valid UTF-8"@
                            } else {
                                "input contains interior nul byte"@
                            },
                        ),
                    },
                    WorkerRequest::EvalDebugCommand { command, .. } => if old(
                        state,
                    ).session_handle() is None {
                        not_started(response)
                    } else {
                        failed_saying(
                            response,
                            "operation_failed"@,
                            if all_white(command@) {
                                "debug command must not be empty"@
                            } else {
                                "input contains interior nul byte"@
                            },
                        )
                    },
                    WorkerRequest::AddSymbols { symbol_path, .. } => if old(
                        state,
                    ).session_handle() is None {
                        not_started(response)
                    } else {
                        failed_saying(
                            response,
                            "operation_failed"@,
                            if all_white(symbol_path@) {
                                "symbol path must not be empty"@
                            } else {
                                "input contains interior nul byte"@
                            },
                        )
                    },
                    WorkerRequest::ReadMemory { length, .. } => if old(
                        state,
                    ).session_handle() is None {
                        not_started(response)
                    } else {
                        failed_saying(
                            response,
                            "operation_failed"@,
                            if length == 0 {
                                "memory read length must be greater than zero"@
                            } else {
                                "memory read length exceeds u32"@
                            },
                        )
                    },
                    WorkerRequest::OpenReverseSession { .. } => failed_saying(
                        response,
                        "reverse_session_exists"@,
                        "reverse session already exists"@,
                    ),
                    WorkerRequest::LookupReverseFunction { .. } => not_open(response),
                    WorkerRequest::ReverseCoreFunction { .. } => not_open(response),
                    WorkerRequest::CloseReverseSession { .. } => not_open(response),
                    WorkerRequest::CloseSession { .. } => done_saying(
                        response,
                        "debug session closed"@,
                    ),
                    WorkerRequest::KillSession { .. } => done_saying(
                        response,
                        "debug session killed"@,
                    ),
                    WorkerRequest::CancelOperation { .. } => done_saying(
                        response,
                        "operation cancel acknowledged"@,
                    ),
                }
            }
        }),
{
    match request {
        WorkerRequest::EvalDebugCommand { command, .. } => {
            laws::text::lemma_blank_is_white(command@);
        },
        WorkerRequest::AddSymbols { symbol_path, .. } => {
            laws::text::lemma_blank_is_white(symbol_path@);
        },
        _ => {},
    }
}

/// The answer is that no debug session has started.
pub open spec fn not_started(response: WorkerResponse) -> bool {
    failed_saying(response, "session_not_started"@, "debug session has not started"@)
}

/// The answer is that no reverse session is open.
pub open spec fn not_open(response: WorkerResponse) -> bool {
    failed_saying(response, "reverse_session_not_found"@, "reverse session is not open"@)
}

/// What a command wrote is described by what it was.
pub proof fn law_outputs_are_described(
    state: &mut WorkerState,
    request: WorkerRequest,
    step: WorkerStep,
)
    requires
        call_ensures(WorkerState::handle_request, (state, request), step),
        step is RunDebug,
    ensures
        request is EvalDebugCommand ==> step->RunDebug_context.description@
            == "debug raw command output"@,
        request is AddSymbols ==> step->RunDebug_context.description@
            == "debug add_symbols output"@,
{
}

/// What failed in the debugger is told by the error that it is.
pub proof fn law_failed_replies_say_why(
    context: CommandContext,
    reply: Option<TextReply>,
    now: Timestamp,
    plan: Result<WritePlan, WorkerResponse>,
    words: Result<String, DbgEngError>,
    told: String,
)
    requires
        call_ensures(finish_command, (context, reply, now), plan),
        call_ensures(text_from_reply, (reply,), words),
        words is Err ==> call_ensures(DbgEngError::message, (&words->Err_0,), told),
    ensures
        plan is Err <==> words is Err,
        plan matches Err(response) ==> failed_saying(response, "operation_failed"@, told@),
{
}

/// A session that could not be opened is told by the error that it is.
pub proof fn law_failed_starts_say_why(
    state: &mut WorkerState,
    reply: Option<OpenReply>,
    artifact_dir: HostPath,
    now: Timestamp,
    outcome: Result<SessionStarted, WorkerResponse>,
    opened: Result<DbgEngSession, DbgEngError>,
    told: String,
)
    requires
        call_ensures(WorkerState::finish_start, (state, reply, &artifact_dir, now), outcome),
        call_ensures(session_from_reply, (reply,), opened),
        opened is Err ==> call_ensures(DbgEngError::message, (&opened->Err_0,), told),
    ensures
        outcome is Err <==> opened is Err,
        outcome matches Err(response) ==> failed_saying(response, "start_failed"@, told@),
{
}

/// An option that is given again takes the place of what was given before,
/// and changes no other.
pub proof fn law_later_options_win(
    args: Vec<String>,
    read: Result<WorkerArgs, String>,
    name: String,
    value: String,
    more: Vec<String>,
    again: Result<WorkerArgs, String>,
)
    requires
        call_ensures(WorkerArgs::parse, (&args,), read),
        more@ == args@.push(name).push(value),
        call_ensures(WorkerArgs::parse, (&more,), again),
        read is Ok,
    ensures
        name@ == "--pipe"@ ==> (again matches Ok(found) && found.pipe == value && found.session_id
            == read->Ok_0.session_id),
        name@ == "--session-id"@ ==> (again matches Ok(found) && found.session_id == value
            && found.pipe == read->Ok_0.pipe),
        name@ != "--pipe"@ && name@ != "--session-id"@ ==> (again matches Err(reason) && reason@
            == "unsupported argument `"@ + name@ + "`"@),
{
    reveal_strlit("--pipe");
    reveal_strlit("--session-id");
    assert("--pipe"@.len() != "--session-id"@.len());
    lemma_later_option(args@, name, value, 0, None, None);
}

proof fn lemma_later_option(
    args: Seq<String>,
    name: String,
    value: String,
    from: int,
    pipe: Option<String>,
    session: Option<String>,
)
    requires
        0 <= from <= args.len(),
        "--pipe"@ != "--session-id"@,
        worker::scan_args(args, from, pipe, session) matches Ok((Some(_), Some(_))),
    ensures
        ({
            let read = worker::scan_args(args, from, pipe, session)->Ok_0;
            let again = worker::scan_args(args.push(name).push(value), from, pipe, session);
            if name@ == "--pipe"@ {
                again == Ok::<(Option<String>, Option<String>), Seq<char>>((Some(value), read.1))
            } else if name@ == "--session-id"@ {
                again == Ok::<(Option<String>, Option<String>), Seq<char>>((read.0, Some(value)))
            } else {
                again == Err::<(Option<String>, Option<String>), Seq<char>>(
                    "unsupported argument `"@ + name@ + "`"@,
                )
            }
        }),
    decreases args.len() - from,
{
    let more = args.push(name).push(value);
    if from == args.len() {
        assert(more[from] == name);
        assert(more[from + 1] == value);
        reveal_with_fuel(worker::scan_args, 2);
    } else if from + 1 == args.len() {
        reveal_with_fuel(worker::scan_args, 2);
    } else {
        assert(more[from] == args[from]);
        assert(more[from + 1] == args[from + 1]);
        if args[from]@ == "--pipe"@ {
            lemma_later_option(args, name, value, from + 2, Some(args[from + 1]), session);
        } else if args[from]@ == "--session-id"@ {
            lemma_later_option(args, name, value, from + 2, pipe, Some(args[from + 1]));
        }
    }
}

/// Options that are missing are named, the pipe first.
pub proof fn law_missing_options_are_named(
    empty: Vec<String>,
    none: Result<WorkerArgs, String>,
    name: String,
    value: String,
    one: Vec<String>,
    half: Result<WorkerArgs, String>,
)
    requires
        empty@.len() == 0,
        call_ensures(WorkerArgs::parse, (&empty,), none),
        one@ == seq![name, value],
        call_ensures(WorkerArgs::parse, (&one,), half),
    ensures
        none matches Err(reason) && reason@ == "missing --pipe"@,
        name@ == "--pipe"@ ==> (half matches Err(reason) && reason@ == "missing --session-id"@),
        name@ == "--session-id"@ ==> (half matches Err(reason) && reason@ == "missing --pipe"@),
{
    reveal_strlit("--pipe");
    reveal_strlit("--session-id");
    assert("--pipe"@.len() != "--session-id"@.len());
    reveal_with_fuel(worker::scan_args, 3);
}

} // verus!
