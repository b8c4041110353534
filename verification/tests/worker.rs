use dbgatlas::dbgeng::{DbgEngCall, OpenReply, StatusReply, TextReply};
use dbgatlas::debug::{DebugSessionState, DebugTarget};
use dbgatlas::ida::{
    CoreFunctionResult, FunctionLookup, IdaCommand, IdaError, IdaSession, SessionEvent,
};
use dbgatlas::json::Json;
use dbgatlas::model::{Id, OperationRef, SessionRef, Timestamp};
use dbgatlas::native::{LastError, LentText};
use dbgatlas::path::{HostPath, JoinedPath};
use dbgatlas::worker::{
    event_line, finish_command, finish_memory, finish_reverse_core, finish_reverse_lookup,
    open_pipe_step, request_end, should_exit, started_response, write_command_response,
    write_memory_response, written_response, CommandContext, FileWrite, MemoryContext, PipeStep,
    RequestEnd, WorkerArgs, WorkerState, WorkerStep,
};
use dbgatlas::worker_protocol::{WorkerRequest, WorkerResponse};

fn session_ref(id: &str) -> SessionRef {
    SessionRef::new(Id::new(id).unwrap())
}

fn operation() -> OperationRef {
    OperationRef::new(Id::new("op-001").unwrap())
}

fn dir() -> HostPath {
    HostPath::new("out")
}

fn status(status: i32, text: &str) -> StatusReply {
    StatusReply {
        status,
        last_error: LastError {
            status: 0,
            buffer: text.as_bytes().to_vec(),
        },
    }
}

fn opened(handle: u64) -> Option<OpenReply> {
    Some(OpenReply {
        outcome: status(0, ""),
        handle,
    })
}

fn given(bytes: &[u8]) -> Option<TextReply> {
    Some(TextReply {
        outcome: status(0, ""),
        view: LentText {
            len: bytes.len() as u64,
            data: Some(bytes.to_vec()),
        },
    })
}

/// A worker for `session-001` that holds the native session 42.
fn started() -> WorkerState {
    let mut state = WorkerState::new("session-001");
    state
        .finish_start(opened(42), &dir(), Timestamp { unix_millis: 1 })
        .unwrap();
    state
}

fn response(step: WorkerStep) -> WorkerResponse {
    match step {
        WorkerStep::Respond { response, .. } => response,
        other => panic!("expected a response, got {other:?}"),
    }
}

fn failure(response: WorkerResponse) -> (String, String) {
    match response {
        WorkerResponse::Failed { code, message, .. } => (code, message),
        other => panic!("expected failed response, got {other:?}"),
    }
}

fn named(path: &JoinedPath) -> String {
    format!("{}/{}", path.base.text, path.names.join("/"))
}

fn eval(command: &str) -> WorkerRequest {
    WorkerRequest::EvalDebugCommand {
        session_id: session_ref("session-001"),
        operation_id: operation(),
        command: command.to_string(),
        artifact_dir: dir(),
    }
}

fn read(length: u64) -> WorkerRequest {
    WorkerRequest::ReadMemory {
        session_id: session_ref("session-001"),
        operation_id: operation(),
        address: 0x1000,
        length,
        artifact_dir: dir(),
    }
}

fn start(target: DebugTarget) -> WorkerRequest {
    WorkerRequest::StartDebugSession {
        session_id: session_ref("session-001"),
        target,
        artifact_dir: dir(),
    }
}

fn open_reverse() -> WorkerRequest {
    WorkerRequest::OpenReverseSession {
        session_id: session_ref("session-001"),
        ida_install_dir: HostPath::new("missing-ida"),
        database_path: HostPath::new("sample.i64"),
        artifact_dir: dir(),
    }
}

fn lookup() -> WorkerRequest {
    WorkerRequest::LookupReverseFunction {
        session_id: session_ref("session-001"),
        operation_id: operation(),
        runtime_address: 0x180001000,
        runtime_module_base: 0x180000000,
        ida_image_base: 0x140000000,
        artifact_dir: dir(),
    }
}

#[test]
fn worker_rejects_session_mismatch() {
    let mut state = WorkerState::new("session-expected");
    let step = state.handle_request(WorkerRequest::CloseSession {
        session_id: session_ref("session-other"),
    });

    let (code, message) = failure(response(step));
    assert_eq!(code, "session_mismatch");
    assert!(message.contains("session-expected"));
    assert_eq!(
        message,
        "worker session is session-expected, request was for session-other"
    );
}

#[test]
fn worker_reports_unknown_reverse_session() {
    let mut state = WorkerState::new("session-001");
    let step = state.handle_request(lookup());

    let (code, message) = failure(response(step));
    assert_eq!(code, "reverse_session_not_found");
    assert!(message.contains("not open"));
}

#[test]
fn worker_reports_structured_reverse_open_failure() {
    let mut state = WorkerState::new("session-001");
    let (install_dir, database_path) = match state.handle_request(open_reverse()) {
        WorkerStep::OpenReverse {
            install_dir,
            database_path,
        } => (install_dir, database_path),
        other => panic!("expected a reverse session, got {other:?}"),
    };
    let session = IdaSession::open(install_dir, database_path, true).unwrap();
    let (_, output) = session.advance(SessionEvent::InstallDir { present: false });
    let response = state.finish_reverse_open(output.ready.unwrap());

    let (code, message) = failure(response);
    assert_eq!(code, "reverse_open_failed");
    assert!(!message.is_empty());
    let again = state.handle_request(lookup());
    match again {
        WorkerStep::Respond { response, .. } => {
            assert_eq!(failure(response).0, "reverse_session_not_found");
        }
        other => panic!("expected a response, got {other:?}"),
    }
}

#[test]
fn arguments_name_a_pipe_and_a_session() {
    let parse = |list: &[&str]| {
        let args: Vec<String> = list.iter().map(|arg| arg.to_string()).collect();
        WorkerArgs::parse(&args)
    };
    assert_eq!(
        parse(&["--session-id", "s", "--pipe", "p"]).unwrap(),
        WorkerArgs {
            pipe: "p".to_string(),
            session_id: "s".to_string(),
        }
    );
    assert_eq!(
        parse(&["--pipe", "p", "--pipe", "q", "--session-id", "s"])
            .unwrap()
            .pipe,
        "q"
    );
    assert_eq!(parse(&[]).unwrap_err(), "missing --pipe");
    assert_eq!(parse(&["--pipe", "p"]).unwrap_err(), "missing --session-id");
    assert_eq!(
        parse(&["--session-id", "s", "--pipe"]).unwrap_err(),
        "missing --pipe"
    );
    assert_eq!(
        parse(&["--pipe", "p", "--verbose"]).unwrap_err(),
        "unsupported argument `--verbose`"
    );
}

#[test]
fn a_debug_session_starts_from_a_dump_or_a_process() {
    let mut state = WorkerState::new("session-001");
    match state.handle_request(start(DebugTarget::Dump {
        path: HostPath::new("sample.dmp"),
    })) {
        WorkerStep::OpenDebug { call, artifact_dir } => {
            assert_eq!(
                call,
                DbgEngCall::OpenDump {
                    path: b"sample.dmp".to_vec(),
                }
            );
            assert_eq!(artifact_dir, dir());
        }
        other => panic!("unexpected step {other:?}"),
    }
    match state.handle_request(start(DebugTarget::Attach { pid: 7 })) {
        WorkerStep::OpenDebug { call, .. } => {
            assert_eq!(call, DbgEngCall::AttachProcess { pid: 7 });
        }
        other => panic!("unexpected step {other:?}"),
    }
}

#[test]
fn other_targets_do_not_start() {
    let refusal = |target: DebugTarget| {
        let mut state = WorkerState::new("session-001");
        failure(response(state.handle_request(start(target))))
    };
    let pair = |code: &str, message: &str| (code.to_string(), message.to_string());
    assert_eq!(
        refusal(DebugTarget::Launch {
            executable: HostPath::new("a.exe"),
            args: Vec::new(),
        }),
        pair(
            "unsupported_target",
            "launch targets are not supported in MVP1"
        )
    );
    assert_eq!(
        refusal(DebugTarget::Attach { pid: 0 }),
        pair("start_failed", "attach pid must be greater than zero")
    );
    assert_eq!(
        refusal(DebugTarget::Dump {
            path: HostPath::new(""),
        }),
        pair("start_failed", "dump path must not be empty")
    );
    assert_eq!(
        refusal(DebugTarget::Dump {
            path: HostPath::new("a\0b"),
        }),
        pair("start_failed", "input contains interior nul byte")
    );
}

#[test]
fn a_started_session_is_told_and_takes_the_place_of_another() {
    let mut state = WorkerState::new("session-001");
    let now = Timestamp { unix_millis: 5 };
    let first = state.finish_start(opened(42), &dir(), now).unwrap();
    assert_eq!(first.release, None);
    match &first.file {
        FileWrite::AppendEvent { path, event } => {
            assert_eq!(named(path), "out/events.jsonl");
            assert_eq!(
                event_line(event).unwrap(),
                "{\"event\":\"state_changed\",\"session_id\":{\"id\":\"session-001\"},\"state\":\"ready\",\"timestamp\":{\"unix_millis\":5}}\n"
            );
        }
        other => panic!("unexpected file {other:?}"),
    }
    assert_eq!(
        named(&first.write.relative_path),
        "artifacts/sessions/session-001/events.jsonl"
    );
    assert_eq!(first.write.byte_len, 0);
    match started_response(first.write, true) {
        WorkerResponse::Done { summary, writes } => {
            assert_eq!(summary, "debug session started");
            assert_eq!(writes.len(), 1);
        }
        other => panic!("unexpected response {other:?}"),
    }

    let second = state.finish_start(opened(43), &dir(), now).unwrap();
    assert_eq!(second.release, Some(42));
    assert!(started_response(second.write, false).writes().is_empty());
}

#[test]
fn a_session_that_does_not_open_changes_nothing() {
    let mut state = started();
    let reply = Some(OpenReply {
        outcome: status(3, "no dump"),
        handle: 0,
    });
    let refused = state
        .finish_start(reply, &dir(), Timestamp { unix_millis: 1 })
        .unwrap_err();
    assert_eq!(
        failure(refused),
        (
            "start_failed".to_string(),
            "native call failed with status 3: no dump".to_string()
        )
    );
    let refused = state
        .finish_start(None, &dir(), Timestamp { unix_millis: 1 })
        .unwrap_err();
    assert_eq!(
        failure(refused).1,
        "native adapter is only available on Windows"
    );
    match state.handle_request(eval("k")) {
        WorkerStep::RunDebug {
            call: DbgEngCall::Execute { handle, .. },
            ..
        } => assert_eq!(handle, 42),
        other => panic!("unexpected step {other:?}"),
    }
}

#[test]
fn commands_need_a_session() {
    let mut state = WorkerState::new("session-001");
    for request in [eval("k"), read(8)] {
        assert_eq!(
            failure(response(state.handle_request(request))),
            (
                "session_not_started".to_string(),
                "debug session has not started".to_string()
            )
        );
    }
}

#[test]
fn bad_commands_fail_as_operations() {
    let mut state = started();
    let mut refusal = |request: WorkerRequest| failure(response(state.handle_request(request)));
    assert_eq!(
        refusal(eval(" ")),
        (
            "operation_failed".to_string(),
            "debug command must not be empty".to_string()
        )
    );
    assert_eq!(
        refusal(read(0)).1,
        "memory read length must be greater than zero"
    );
    assert_eq!(refusal(read(1 << 32)).1, "memory read length exceeds u32");
    let symbols = WorkerRequest::AddSymbols {
        session_id: session_ref("session-001"),
        operation_id: operation(),
        symbol_path: "".to_string(),
        reload: false,
        artifact_dir: dir(),
    };
    assert_eq!(refusal(symbols).1, "symbol path must not be empty");
}

#[test]
fn a_command_is_written_and_answered() {
    let mut state = started();
    let context = match state.handle_request(eval(".echo hé")) {
        WorkerStep::RunDebug { context, .. } => context,
        other => panic!("unexpected step {other:?}"),
    };
    let plan = finish_command(
        context,
        given("hé".as_bytes()),
        Timestamp { unix_millis: 9 },
    )
    .unwrap();
    assert_eq!(plan.files.len(), 4);
    match (&plan.files[0], &plan.files[1], &plan.files[2], &plan.files[3]) {
        (
            FileWrite::CreateParent(raw),
            FileWrite::WriteText {
                path: file,
                text: output,
            },
            FileWrite::AppendText { path: log, text },
            FileWrite::AppendEvent {
                path: events,
                event,
            },
        ) => {
            assert_eq!(named(raw), "out/raw/op-001.txt");
            assert_eq!(named(file), "out/raw/op-001.txt");
            assert_eq!(output, "hé");
            assert_eq!(named(log), "out/transcript.log");
            assert_eq!(text, "> .echo hé\nhé\n");
            assert_eq!(named(events), "out/events.jsonl");
            assert_eq!(
                event_line(event).unwrap(),
                "{\"byte_len\":3,\"command\":\".echo hé\",\"event\":\"output\",\"operation_id\":{\"id\":\"op-001\"},\"session_id\":{\"id\":\"session-001\"},\"timestamp\":{\"unix_millis\":9}}\n"
            );
        }
        other => panic!("unexpected files {other:?}"),
    }
    match plan.response {
        WorkerResponse::DebugCommand { result, writes } => {
            assert_eq!(result.command, ".echo hé");
            assert_eq!(result.output, "hé");
            assert_eq!(result.final_state, Some(DebugSessionState::Ready));
            assert_eq!(result.operation_id, None);
            let shown: Vec<(String, &str, u64)> = writes
                .iter()
                .map(|write| {
                    (
                        named(&write.relative_path),
                        write.kind.as_str(),
                        write.byte_len,
                    )
                })
                .collect();
            let prefix = "artifacts/sessions/session-001";
            assert_eq!(
                shown,
                [
                    (format!("{prefix}/raw/op-001.txt"), "debug.raw_output", 3),
                    (format!("{prefix}/transcript.log"), "debug.transcript", 16),
                    (format!("{prefix}/events.jsonl"), "debug.events", 3),
                ]
            );
            assert_eq!(
                writes[0].description.as_deref(),
                Some("debug raw command output")
            );
        }
        other => panic!("unexpected response {other:?}"),
    }
}

#[test]
fn symbols_are_added_as_a_command() {
    let mut state = started();
    let mut told = |reload: bool| {
        let request = WorkerRequest::AddSymbols {
            session_id: session_ref("session-001"),
            operation_id: operation(),
            symbol_path: "srv*".to_string(),
            reload,
            artifact_dir: dir(),
        };
        match state.handle_request(request) {
            WorkerStep::RunDebug { call, context } => (call, context),
            other => panic!("unexpected step {other:?}"),
        }
    };
    let (call, context) = told(true);
    assert_eq!(
        call,
        DbgEngCall::AddSymbols {
            handle: 42,
            symbol_path: b"srv*".to_vec(),
            reload: 1,
        }
    );
    assert_eq!(context.command, "add_symbols srv* --reload");
    assert_eq!(context.description, "debug add_symbols output");
    assert_eq!(told(false).1.command, "add_symbols srv*");
}

#[test]
fn memory_is_written_and_answered() {
    let mut state = started();
    let (call, context) = match state.handle_request(read(4)) {
        WorkerStep::ReadDebug { call, context } => (call, context),
        other => panic!("unexpected step {other:?}"),
    };
    assert_eq!(
        call,
        DbgEngCall::ReadVirtual {
            handle: 42,
            address: 0x1000,
            length: 4,
        }
    );
    let plan = finish_memory(context, given(&[1, 2, 3])).unwrap();
    match (&plan.files[0], &plan.files[1]) {
        (FileWrite::CreateParent(made), FileWrite::WriteBytes { path, bytes }) => {
            assert_eq!(named(made), "out/memory/op-001.bin");
            assert_eq!(named(path), "out/memory/op-001.bin");
            assert_eq!(bytes, &[1, 2, 3]);
        }
        other => panic!("unexpected files {other:?}"),
    }
    match plan.response {
        WorkerResponse::DebugMemory { result, writes } => {
            assert_eq!(result.address, 0x1000);
            assert_eq!(result.requested_length, 4);
            assert_eq!(result.bytes_read, 3);
            assert_eq!(
                named(&writes[0].relative_path),
                "artifacts/sessions/session-001/memory/op-001.bin"
            );
            assert_eq!(writes[0].kind, "debug.memory");
        }
        other => panic!("unexpected response {other:?}"),
    }
}

#[test]
fn failed_calls_and_writes_fail_the_operation() {
    let context = || CommandContext {
        session_id: session_ref("session-001"),
        operation_id: operation(),
        command: "k".to_string(),
        artifact_dir: dir(),
        description: "debug raw command output",
    };
    let now = Timestamp { unix_millis: 0 };
    let mut reply = given(b"");
    reply.as_mut().unwrap().outcome = status(-5, "hung");
    assert_eq!(
        failure(finish_command(context(), reply, now).unwrap_err()),
        (
            "operation_failed".to_string(),
            "native call failed with status -5: hung".to_string()
        )
    );
    let memory = MemoryContext {
        session_id: session_ref("session-001"),
        operation_id: operation(),
        address: 1,
        length: 2,
        artifact_dir: dir(),
    };
    let plan = write_memory_response(memory, vec![0]);
    let answer = written_response(plan.response, Err("disk full".to_string()));
    assert_eq!(
        failure(answer),
        ("operation_failed".to_string(), "disk full".to_string())
    );
    let done = written_response(WorkerResponse::ok("x"), Ok(()));
    assert_eq!(done, WorkerResponse::ok("x"));
}

#[test]
fn the_directory_that_holds_the_output_is_made() {
    let nested = || OperationRef::new(Id::from_stored("a/b".to_string()));
    let command = CommandContext {
        session_id: session_ref("session-001"),
        operation_id: nested(),
        command: "k".to_string(),
        artifact_dir: dir(),
        description: "raw",
    };
    let plan = write_command_response(command, "out".to_string(), Timestamp { unix_millis: 1 });
    match (&plan.files[0], &plan.files[1]) {
        (FileWrite::CreateParent(made), FileWrite::WriteText { path, .. }) => {
            assert_eq!(named(made), "out/raw/a/b.txt");
            assert_eq!(made, path);
        }
        other => panic!("unexpected files {other:?}"),
    }
    let memory = MemoryContext {
        session_id: session_ref("session-001"),
        operation_id: nested(),
        address: 1,
        length: 2,
        artifact_dir: dir(),
    };
    let plan = write_memory_response(memory, vec![0]);
    match (&plan.files[0], &plan.files[1]) {
        (FileWrite::CreateParent(made), FileWrite::WriteBytes { path, .. }) => {
            assert_eq!(named(made), "out/memory/a/b.bin");
            assert_eq!(made, path);
        }
        other => panic!("unexpected files {other:?}"),
    }
}

#[test]
fn a_reverse_session_is_opened_once_and_asked() {
    let mut state = WorkerState::new("session-001");
    match state.finish_reverse_open(Ok(())) {
        WorkerResponse::ReverseSessionOpened { writes } => assert!(writes.is_empty()),
        other => panic!("unexpected response {other:?}"),
    }
    assert_eq!(
        failure(response(state.handle_request(open_reverse()))),
        (
            "reverse_session_exists".to_string(),
            "reverse session already exists".to_string()
        )
    );
    match state.handle_request(lookup()) {
        WorkerStep::AskReverse { command } => assert_eq!(
            command,
            IdaCommand::Lookup {
                runtime_address: 0x180001000,
                runtime_module_base: 0x180000000,
                ida_image_base: 0x140000000,
            }
        ),
        other => panic!("unexpected step {other:?}"),
    }
    let core = WorkerRequest::ReverseCoreFunction {
        session_id: session_ref("session-001"),
        operation_id: operation(),
        function: "list_funcs".to_string(),
        arguments: Json::empty_object(),
        artifact_dir: dir(),
    };
    assert!(matches!(
        state.handle_request(core),
        WorkerStep::AskReverse {
            command: IdaCommand::Core { .. }
        }
    ));
}

#[test]
fn a_reverse_session_stays_open_when_closing_fails() {
    let mut state = WorkerState::new("session-001");
    state.finish_reverse_open(Ok(()));
    let close = || WorkerRequest::CloseReverseSession {
        session_id: session_ref("session-001"),
    };
    assert!(matches!(
        state.handle_request(close()),
        WorkerStep::CloseReverse
    ));
    let failed = state.finish_reverse_close(Err(IdaError::WorkerStopped));
    assert_eq!(
        failure(failed),
        (
            "reverse_close_failed".to_string(),
            "IDA session worker stopped".to_string()
        )
    );
    assert!(matches!(
        state.handle_request(close()),
        WorkerStep::CloseReverse
    ));
    assert_eq!(
        state.finish_reverse_close(Ok(())),
        WorkerResponse::ok("reverse session closed")
    );
    assert_eq!(
        failure(response(state.handle_request(close()))).0,
        "reverse_session_not_found"
    );
}

#[test]
fn reverse_results_are_answered() {
    let found = FunctionLookup {
        runtime_address: 1,
        runtime_module_base: 2,
        rva: 3,
        ida_image_base: 4,
        ida_ea: 5,
        function_start: 6,
        function_end: 7,
        function_name: "f".to_string(),
        found: true,
    };
    match finish_reverse_lookup(Ok(found)) {
        WorkerResponse::ReverseFunctionLookup { result, .. } => {
            assert_eq!(result.function_end, 7);
            assert_eq!(result.function_name, "f");
        }
        other => panic!("unexpected response {other:?}"),
    }
    assert_eq!(
        failure(finish_reverse_lookup(Err(IdaError::WorkerStopped))).0,
        "reverse_lookup_failed"
    );
    let core = CoreFunctionResult {
        function: "f".to_string(),
        result: Json::Null,
        warnings: vec!["slow".to_string()],
    };
    match finish_reverse_core(Ok(core)) {
        WorkerResponse::ReverseCoreFunction { result, .. } => {
            assert_eq!(result.warnings, ["slow"]);
        }
        other => panic!("unexpected response {other:?}"),
    }
    assert_eq!(
        failure(finish_reverse_core(Err(IdaError::WorkerStopped))).0,
        "reverse_core_failed"
    );
}

#[test]
fn closing_gives_everything_up() {
    let mut state = started();
    state.finish_reverse_open(Ok(()));
    let cancel = WorkerRequest::CancelOperation {
        session_id: session_ref("session-001"),
        operation_id: operation(),
    };
    assert_eq!(
        response(state.handle_request(cancel)),
        WorkerResponse::ok("operation cancel acknowledged")
    );
    match state.handle_request(WorkerRequest::KillSession {
        session_id: session_ref("session-001"),
    }) {
        WorkerStep::Respond {
            response,
            release,
            drop_reverse,
        } => {
            assert_eq!(response, WorkerResponse::ok("debug session killed"));
            assert_eq!(release, Some(42));
            assert!(drop_reverse);
        }
        other => panic!("unexpected step {other:?}"),
    }
    match state.handle_request(WorkerRequest::CloseSession {
        session_id: session_ref("session-001"),
    }) {
        WorkerStep::Respond {
            response,
            release,
            drop_reverse,
        } => {
            assert_eq!(response, WorkerResponse::ok("debug session closed"));
            assert_eq!(release, None);
            assert!(!drop_reverse);
        }
        other => panic!("unexpected step {other:?}"),
    }
}

#[test]
fn a_pipe_is_tried_fifty_times() {
    assert_eq!(open_pipe_step(0, true), PipeStep::Opened);
    assert_eq!(open_pipe_step(49, true), PipeStep::Opened);
    assert_eq!(open_pipe_step(0, false), PipeStep::Retry { millis: 100 });
    assert_eq!(open_pipe_step(48, false), PipeStep::Retry { millis: 100 });
    assert_eq!(open_pipe_step(49, false), PipeStep::GiveUp { millis: 100 });
    assert_eq!(
        open_pipe_step(u32::MAX, false),
        PipeStep::GiveUp { millis: 100 }
    );
}

#[test]
fn some_requests_end_the_worker() {
    let done = WorkerResponse::ok("x");
    let failed = WorkerResponse::failed("c", "m");
    let session_id = || session_ref("session-001");
    let kill = request_end(&WorkerRequest::KillSession {
        session_id: session_id(),
    });
    assert_eq!(kill, RequestEnd::Always);
    assert!(should_exit(kill, &failed));
    let close = request_end(&WorkerRequest::CloseReverseSession {
        session_id: session_id(),
    });
    assert_eq!(close, RequestEnd::WhenDone);
    assert!(should_exit(close, &done));
    assert!(!should_exit(close, &failed));
    assert!(!should_exit(request_end(&eval("k")), &done));
}
