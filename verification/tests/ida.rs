use dbgatlas::ida::{
    adapter_candidates, core_call, core_result, export_text, find_adapter_path, load_step,
    native_core, native_error, native_lookup, native_version, reply_or_stopped, take_text_view,
    validate_path, warnings_in, Acquired, CommandReply, CoreFunctionResult, CoreReply, ErrorReply,
    ExeLocation, FunctionLookup, HostAction, IdaCommand, IdaError, IdaSession, LoadReply, LoadStep,
    LoadTurn, LookupReply, SessionEvent, SessionOutput, SessionPhase, EXPORT_COUNT,
};
use dbgatlas::ida_sys::{
    DA_IdaCoreResult, DA_IdaFunctionLookup, DA_IdaSessionHandle, DA_IdaTextView,
};
use dbgatlas::json::Json;
use dbgatlas::path::HostPath;

fn no_error() -> ErrorReply {
    ErrorReply {
        required: 0,
        status: 0,
        buffer: Vec::new(),
    }
}

fn said(text: &[u8]) -> ErrorReply {
    ErrorReply {
        required: text.len(),
        status: 0,
        buffer: text.to_vec(),
    }
}

fn lent(text: &[u8]) -> DA_IdaTextView {
    DA_IdaTextView {
        data: Some(text.to_vec()),
    }
}

fn lookup(name: DA_IdaTextView, found: i32) -> DA_IdaFunctionLookup {
    DA_IdaFunctionLookup {
        struct_size: 0,
        flags: 0,
        runtime_address: 0x180001234,
        runtime_module_base: 0x180000000,
        rva: 0x1234,
        ida_image_base: 0x140000000,
        ida_ea: 0x140001234,
        function_start: 0x140001000,
        function_end: 0x140001500,
        function_name: name,
        found,
    }
}

fn core_reply(status: i32, document: &[u8]) -> CoreReply {
    CoreReply {
        status,
        error: said(b"core failed"),
        result: DA_IdaCoreResult {
            struct_size: 0,
            flags: 0,
            result_json: lent(document),
        },
    }
}

fn opened() -> IdaSession {
    IdaSession::open(HostPath::new("ida"), HostPath::new("sample.i64"), true).unwrap()
}

fn quiet(turn: (IdaSession, SessionOutput)) -> IdaSession {
    assert!(turn.1.ready.is_none());
    assert!(turn.1.reply.is_none());
    turn.0
}

/// A session whose worker waits for commands, on the native handle 9.
fn idle() -> IdaSession {
    let session = opened();
    let session = quiet(session.advance(SessionEvent::InstallDir { present: true }));
    let session = quiet(session.advance(SessionEvent::Dll {
        present: true,
        shown: "ida/ida.dll".to_string(),
    }));
    let session = quiet(session.advance(SessionEvent::Dll {
        present: true,
        shown: "ida/idalib.dll".to_string(),
    }));
    let session = quiet(session.advance(SessionEvent::Loaded(Ok(()))));
    let (session, output) = session.advance(SessionEvent::Opened {
        status: 0,
        handle: DA_IdaSessionHandle { value: 9 },
        error: no_error(),
    });
    assert_eq!(output.ready, Some(Ok(())));
    session
}

fn failure(output: SessionOutput) -> String {
    output.ready.unwrap().unwrap_err().message()
}

#[test]
fn rejects_empty_install_dir() {
    let error = match IdaSession::open(HostPath::new(""), HostPath::new("sample.idb"), true) {
        Ok(_) => panic!("empty install dir should be rejected"),
        Err(error) => error,
    };
    assert!(matches!(
        error,
        IdaError::EmptyPath {
            field: "install_dir"
        }
    ));
    assert_eq!(error.message(), "install_dir must not be empty");
}

#[test]
fn computes_lookup_shape_from_values() {
    let lookup = FunctionLookup {
        runtime_address: 0x180001234,
        runtime_module_base: 0x180000000,
        rva: 0x1234,
        ida_image_base: 0x140000000,
        ida_ea: 0x140001234,
        function_start: 0x140001000,
        function_end: 0x140001500,
        function_name: "sub_140001000".to_string(),
        found: true,
    };
    assert_eq!(
        lookup.rva,
        lookup.runtime_address - lookup.runtime_module_base
    );
    assert!(lookup.found);
}

#[test]
fn native_version_is_readable_without_ida_runtime() {
    let version = native_version(true).unwrap();
    assert_eq!(version.abi_major, 0);
    assert_eq!(version.abi_minor, 1);
    assert_eq!(
        native_version(false).unwrap_err(),
        IdaError::UnsupportedPlatform
    );
}

#[test]
fn missing_install_dir_reports_native_error() {
    let session =
        IdaSession::open(HostPath::new("missing-ida"), HostPath::new("sample.bin"), true).unwrap();
    assert_eq!(
        session.next_action(),
        HostAction::ProbeInstallDir(HostPath::new("missing-ida"))
    );
    let (session, output) = session.advance(SessionEvent::InstallDir { present: false });
    let message = failure(output);
    assert!(message.contains("install_dir"));
    assert_eq!(
        message,
        "failed to load native IDA adapter: tools.ida.install_dir does not exist or is not a directory: missing-ida"
    );
    assert_eq!(session.next_action(), HostAction::Exit);
}

#[test]
fn paths_are_checked_before_the_platform() {
    assert_eq!(
        IdaSession::open(HostPath::new("ida"), HostPath::new("a\0b"), false).unwrap_err(),
        IdaError::NulByte {
            field: "database_path"
        }
    );
    assert_eq!(
        IdaSession::open(HostPath::new("ida"), HostPath::new("a"), false).unwrap_err(),
        IdaError::UnsupportedPlatform
    );
    assert!(validate_path(&HostPath::new("x"), "field").is_ok());
}

#[test]
fn a_missing_library_ends_the_worker() {
    let session = quiet(opened().advance(SessionEvent::InstallDir { present: true }));
    match session.next_action() {
        HostAction::ProbeDll(path) => assert_eq!(path.names, ["ida.dll"]),
        other => panic!("unexpected action {other:?}"),
    }
    let session = quiet(session.advance(SessionEvent::Dll {
        present: true,
        shown: String::new(),
    }));
    match session.next_action() {
        HostAction::ProbeDll(path) => assert_eq!(path.names, ["idalib.dll"]),
        other => panic!("unexpected action {other:?}"),
    }
    let (session, output) = session.advance(SessionEvent::Dll {
        present: false,
        shown: "ida/idalib.dll".to_string(),
    });
    assert_eq!(
        failure(output),
        "failed to load native IDA adapter: tools.ida.install_dir is missing idalib.dll: ida/idalib.dll"
    );
    assert_eq!(session.phase, SessionPhase::Finished);
}

#[test]
fn a_session_opens_with_c_strings() {
    let session = opened();
    let session = quiet(session.advance(SessionEvent::InstallDir { present: true }));
    let shown = String::new;
    let session = quiet(session.advance(SessionEvent::Dll {
        present: true,
        shown: shown(),
    }));
    let session = quiet(session.advance(SessionEvent::Dll {
        present: true,
        shown: shown(),
    }));
    assert_eq!(
        session.next_action(),
        HostAction::LoadAdapter(HostPath::new("ida"))
    );
    let session = quiet(session.advance(SessionEvent::Loaded(Ok(()))));
    assert_eq!(
        session.next_action(),
        HostAction::OpenSession {
            install_dir: b"ida".to_vec(),
            database_path: b"sample.i64".to_vec(),
        }
    );
    let (session, output) = session.advance(SessionEvent::Opened {
        status: 7,
        handle: DA_IdaSessionHandle { value: 0 },
        error: said(b"no license\0"),
    });
    assert_eq!(failure(output), "native IDA adapter error 7: no license");
    assert_eq!(session.next_action(), HostAction::Exit);
}

#[test]
fn a_load_failure_ends_the_worker() {
    let mut session = opened();
    session.phase = SessionPhase::Loading;
    let (session, output) = session.advance(SessionEvent::Loaded(Err(IdaError::DynamicLoad(
        "no module".to_string(),
    ))));
    assert_eq!(
        failure(output),
        "failed to load native IDA adapter: no module"
    );
    assert_eq!(session.phase, SessionPhase::Finished);
}

#[test]
fn a_lookup_goes_to_the_native_session() {
    let session = idle();
    assert_eq!(session.next_action(), HostAction::AwaitCommand);
    let command = IdaSession::lookup_function(0x180001234, 0x180000000, 0x140000000);
    let session = quiet(session.advance(SessionEvent::Command(command)));
    assert_eq!(
        session.next_action(),
        HostAction::LookUp {
            handle: DA_IdaSessionHandle { value: 9 },
            runtime_address: 0x180001234,
            runtime_module_base: 0x180000000,
            ida_image_base: 0x140000000,
        }
    );
    let (session, output) = session.advance(SessionEvent::LookedUp(LookupReply {
        status: 0,
        error: no_error(),
        lookup: lookup(lent(b"sub_140001000"), 1),
    }));
    match output.reply {
        Some(CommandReply::Lookup(Ok(found))) => {
            assert_eq!(found.function_name, "sub_140001000");
            assert_eq!(found.rva, 0x1234);
            assert!(found.found);
        }
        other => panic!("unexpected reply {other:?}"),
    }
    assert_eq!(session.next_action(), HostAction::AwaitCommand);
}

#[test]
fn a_lookup_may_find_nothing_or_fail() {
    let reply = |status: i32| LookupReply {
        status,
        error: ErrorReply {
            required: 4,
            status: 3,
            buffer: b"what".to_vec(),
        },
        lookup: lookup(DA_IdaTextView { data: None }, 0),
    };
    let found = native_lookup(reply(0)).unwrap();
    assert_eq!(found.function_name, "");
    assert!(!found.found);
    assert_eq!(
        native_lookup(reply(5)).unwrap_err(),
        IdaError::Native {
            status: 5,
            message: "unknown native IDA error".to_string(),
        }
    );
}

#[test]
fn a_core_function_goes_to_the_native_session() {
    let arguments = Json::object2("b", Json::Uint(1), "a", Json::Null);
    let command = IdaSession::core_function("list_funcs", arguments);
    let session = quiet(idle().advance(SessionEvent::Command(command)));
    assert_eq!(
        session.next_action(),
        HostAction::RunCore {
            handle: DA_IdaSessionHandle { value: 9 },
            function: b"list_funcs".to_vec(),
            arguments: br#"{"a":null,"b":1}"#.to_vec(),
        }
    );
    let document = br#"{"count":2,"warnings":["slow",3,"old"]}"#;
    let (session, output) = session.advance(SessionEvent::CoreReplied(core_reply(0, document)));
    match output.reply {
        Some(CommandReply::Core(Ok(found))) => {
            assert_eq!(found.function, "list_funcs");
            assert_eq!(found.result.get("count"), Some(&Json::Uint(2)));
            assert_eq!(found.warnings, ["slow", "old"]);
        }
        other => panic!("unexpected reply {other:?}"),
    }
    assert_eq!(session.next_action(), HostAction::AwaitCommand);
}

#[test]
fn a_core_function_with_a_nul_is_answered_at_once() {
    let command = IdaSession::core_function("a\0b", Json::Null);
    let (session, output) = idle().advance(SessionEvent::Command(command));
    assert_eq!(
        output.reply,
        Some(CommandReply::Core(Err(IdaError::NulByte {
            field: "function"
        })))
    );
    assert_eq!(session.next_action(), HostAction::AwaitCommand);
    let call = core_call("f", &Json::text("a\0b")).unwrap();
    assert_eq!(call.arguments, br#""a\u0000b""#);
}

#[test]
fn core_results_must_be_documents() {
    let error = native_core("f".to_string(), core_reply(0, b"{")).unwrap_err();
    match &error {
        IdaError::Native { status, message } => {
            assert_eq!(*status, 1);
            assert!(message.starts_with("native IDA core result is not valid JSON: EOF"));
        }
        other => panic!("unexpected error {other:?}"),
    }
    assert_eq!(
        native_core("f".to_string(), core_reply(2, b"{}"))
            .unwrap_err()
            .message(),
        "native IDA adapter error 2: core failed"
    );
    assert_eq!(
        core_result("f".to_string(), Err("why".to_string()))
            .unwrap_err()
            .message(),
        "native IDA adapter error 1: native IDA core result is not valid JSON: why"
    );
    assert_eq!(
        core_result("f".to_string(), Ok(Json::Bool(true))).unwrap(),
        CoreFunctionResult {
            function: "f".to_string(),
            result: Json::Bool(true),
            warnings: Vec::new(),
        }
    );
}

#[test]
fn warnings_are_the_texts_of_a_list() {
    let warnings = |value: Json| warnings_in(&Json::object1("warnings", value));
    assert_eq!(
        warnings(Json::array(vec![
            Json::text("a"),
            Json::Null,
            Json::text("b")
        ])),
        ["a", "b"]
    );
    assert!(warnings(Json::text("a")).is_empty());
    assert!(warnings_in(&Json::Null).is_empty());
}

#[test]
fn a_session_is_closed_on_command() {
    let session = quiet(idle().advance(SessionEvent::Command(IdaSession::close())));
    assert_eq!(
        session.next_action(),
        HostAction::CloseSession {
            handle: DA_IdaSessionHandle { value: 9 },
        }
    );
    let (session, output) = session.advance(SessionEvent::Closed {
        status: 0,
        error: no_error(),
    });
    assert_eq!(output.reply, Some(CommandReply::Close(Ok(()))));
    assert_eq!(session.next_action(), HostAction::Exit);
    let session = quiet(session.advance(SessionEvent::Command(IdaCommand::Close)));
    assert_eq!(session.next_action(), HostAction::Exit);
}

#[test]
fn a_failed_close_is_answered() {
    let session = quiet(idle().advance(SessionEvent::Command(IdaCommand::Close)));
    let (_, output) = session.advance(SessionEvent::Closed {
        status: 4,
        error: said(b"busy"),
    });
    match output.reply {
        Some(CommandReply::Close(Err(error))) => {
            assert_eq!(error.message(), "native IDA adapter error 4: busy");
        }
        other => panic!("unexpected reply {other:?}"),
    }
}

#[test]
fn a_session_is_closed_when_commands_end() {
    let session = quiet(idle().advance(SessionEvent::CommandsEnded));
    assert!(matches!(
        session.next_action(),
        HostAction::CloseSession { .. }
    ));
    let session = quiet(session.advance(SessionEvent::Closed {
        status: 4,
        error: said(b"busy"),
    }));
    assert_eq!(session.next_action(), HostAction::Exit);
}

#[test]
fn callers_hear_of_a_worker_that_stopped() {
    assert_eq!(
        reply_or_stopped::<u8>(false, Some(Ok(1))).unwrap_err(),
        IdaError::WorkerStopped
    );
    assert_eq!(
        reply_or_stopped::<u8>(true, None).unwrap_err().message(),
        "IDA session worker stopped"
    );
    assert_eq!(reply_or_stopped(true, Some(Ok(1))).unwrap(), 1);

    let gone = IdaSession::try_close(false, None);
    assert_eq!(gone.result, Ok(()));
    assert!(gone.join);
    let lost = IdaSession::try_close(true, None);
    assert_eq!(lost.result, Err(IdaError::WorkerStopped));
    assert!(!lost.join);
    let closed = IdaSession::try_close(true, Some(Ok(())));
    assert_eq!(closed.result, Ok(()));
    assert!(closed.join);
}

#[test]
fn native_errors_lose_one_closing_nul() {
    let message = |buffer: &[u8]| match native_error(1, said(buffer)) {
        IdaError::Native { message, .. } => message,
        other => panic!("unexpected error {other:?}"),
    };
    assert_eq!(message(b"text\0"), "text");
    assert_eq!(message(b"te\xffxt"), "te\u{fffd}xt");
    assert_eq!(message(b"a\0\0"), "a\0");
    assert_eq!(take_text_view(DA_IdaTextView { data: None }), "");
    assert_eq!(take_text_view(lent(b"x")), "x");
}

#[test]
fn loading_goes_step_by_step() {
    let mut step = LoadStep::SetDefaultDirectories;
    let mut steps = 0;
    loop {
        steps += 1;
        match load_step(step, LoadReply::Done, "a.dll") {
            LoadTurn::Next(next) => step = next,
            LoadTurn::Loaded => break,
            other => panic!("unexpected turn {other:?}"),
        }
    }
    assert_eq!(steps, 4 + EXPORT_COUNT);
    assert_eq!(export_text(0), "da_ida_abi_version");
    assert_eq!(export_text(EXPORT_COUNT - 1), "da_ida_session_close");
}

#[test]
fn a_failed_step_gives_back_what_it_holds() {
    let failed = |step: LoadStep, reply: LoadReply| match load_step(step, reply, "a.dll") {
        LoadTurn::Failed { error, release } => (error.message(), release),
        other => panic!("unexpected turn {other:?}"),
    };
    let os = || LoadReply::OsFailure { code: 126 };
    let prefix = "failed to load native IDA adapter: ";
    assert_eq!(
        failed(LoadStep::SetDefaultDirectories, os()),
        (
            format!("{prefix}SetDefaultDllDirectories failed with GetLastError=126"),
            Acquired {
                directory: false,
                module: false
            }
        )
    );
    assert_eq!(
        failed(LoadStep::AddDirectory, os()).0,
        format!("{prefix}AddDllDirectory failed with GetLastError=126")
    );
    assert_eq!(
        failed(LoadStep::LoadModule, os()),
        (
            format!("{prefix}LoadLibraryExW(a.dll) failed with GetLastError=126"),
            Acquired {
                directory: true,
                module: false
            }
        )
    );
    assert_eq!(
        failed(LoadStep::Bind { symbol: 4 }, LoadReply::Missing),
        (
            format!("{prefix}missing native IDA adapter export `da_ida_lookup_function`"),
            Acquired {
                directory: true,
                module: true
            }
        )
    );
    let missing = LoadReply::NotFound(IdaError::DynamicLoad("nowhere".to_string()));
    assert_eq!(
        failed(LoadStep::FindAdapter, missing).0,
        format!("{prefix}nowhere")
    );
}

#[test]
fn the_adapter_is_looked_for_in_three_places() {
    let at = || ExeLocation::At {
        shown: "bin/x.exe".to_string(),
        dir: HostPath::new("top/bin"),
        above: Some(HostPath::new("top")),
    };
    let names = |place: dbgatlas::path::JoinedPath| (place.base.text, place.names.join("/"));
    assert_eq!(
        names(find_adapter_path(at(), [true, true, true]).unwrap()),
        ("top/bin".to_string(), "dbgatlas_ida.dll".to_string())
    );
    assert_eq!(
        names(find_adapter_path(at(), [false, true, true]).unwrap()),
        ("top/bin".to_string(), "deps/dbgatlas_ida.dll".to_string())
    );
    assert_eq!(
        names(find_adapter_path(at(), [false, false, true]).unwrap()),
        ("top".to_string(), "dbgatlas_ida.dll".to_string())
    );
    let message = |exe: ExeLocation| {
        find_adapter_path(exe, [false, false, false])
            .unwrap_err()
            .message()
    };
    let prefix = "failed to load native IDA adapter: ";
    assert_eq!(
        message(at()),
        format!("{prefix}dbgatlas_ida.dll was not found next to bin/x.exe")
    );
    assert_eq!(
        message(ExeLocation::NoParent),
        format!("{prefix}current exe has no parent directory")
    );
    assert_eq!(
        message(ExeLocation::Unknown("gone".to_string())),
        format!("{prefix}failed to locate current exe: gone")
    );
    assert_eq!(
        adapter_candidates(&HostPath::new("bin"), &None)[2].base.text,
        "bin"
    );
}
