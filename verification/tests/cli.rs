use dbgatlas::cli::{
    debug_call, debug_target, debug_target_json, facts_lines, info_lines, init_document,
    init_lines, native_version_line, print_json, print_rpc_response, print_service_command_result,
    recording_call, recording_start_call, recording_target, recording_target_json,
    resolve_client_connection, run_service, session_create_call, ClientConnection, DebugCommand,
    Printed, RecordingCommand, ServiceAction, ServiceCommand, ServiceCommandResult,
};
use dbgatlas::dbgeng::NativeVersion;
use dbgatlas::debug::DebugTarget;
use dbgatlas::json::Json;
use dbgatlas::model::{Id, Timestamp};
use dbgatlas::path::HostPath;
use dbgatlas::recording::RecordingTarget;
use dbgatlas::rpc::{JsonRpcError, JsonRpcRequest, JsonRpcResponse};
use dbgatlas::workspace::{
    LayoutDirs, Workspace, WorkspaceFacts, WorkspaceInitOptions,
};

fn params(request: JsonRpcRequest) -> (String, Json) {
    assert_eq!(request.jsonrpc, "2.0");
    assert_eq!(request.id, Some(Json::Uint(1)));
    (request.method, request.params.unwrap())
}

fn reference(id: &str) -> Json {
    Json::object1("id", Json::text(id))
}

fn opaque() -> HostPath {
    let mut path = HostPath::new("\u{fffd}");
    path.raw = Some(vec![0xff]);
    path
}

#[test]
fn debug_commands_call_the_service() {
    let session_id = || "s-1".to_string();
    assert_eq!(
        params(debug_call(DebugCommand::Eval {
            session_id: session_id(),
            command: ".echo from-cli".to_string(),
        })),
        (
            "debug.eval".to_string(),
            Json::object2(
                "session_id",
                reference("s-1"),
                "command",
                Json::text(".echo from-cli")
            )
        )
    );
    assert_eq!(
        params(debug_call(DebugCommand::ReadMemory {
            session_id: session_id(),
            address: "0x1000".to_string(),
            length: 64,
        })),
        (
            "debug.read_memory".to_string(),
            Json::object3(
                "session_id",
                reference("s-1"),
                "address",
                Json::text("0x1000"),
                "length",
                Json::Uint(64)
            )
        )
    );
    let (method, given) = params(debug_call(DebugCommand::AddSymbols {
        session_id: session_id(),
        symbol_path: "srv*".to_string(),
        reload: true,
    }));
    assert_eq!(method, "debug.add_symbols");
    assert_eq!(given.get("reload"), Some(&Json::Bool(true)));
    for (command, method) in [
        (
            DebugCommand::Modules {
                session_id: session_id(),
            },
            "debug.modules",
        ),
        (
            DebugCommand::Threads {
                session_id: session_id(),
            },
            "debug.threads",
        ),
        (
            DebugCommand::Stack {
                session_id: session_id(),
            },
            "debug.stack",
        ),
        (
            DebugCommand::Close {
                session_id: session_id(),
            },
            "debug.session.close",
        ),
        (
            DebugCommand::Kill {
                session_id: session_id(),
            },
            "debug.session.kill",
        ),
    ] {
        assert_eq!(
            params(debug_call(command)),
            (
                method.to_string(),
                Json::object1("session_id", reference("s-1"))
            )
        );
    }
}

#[test]
fn a_debug_target_is_a_dump_or_a_process() {
    let dump = || Some(HostPath::new("sample.dmp"));
    assert_eq!(
        debug_target(dump(), None).unwrap(),
        DebugTarget::Dump {
            path: HostPath::new("sample.dmp"),
        }
    );
    assert_eq!(
        debug_target(None, Some(7)).unwrap(),
        DebugTarget::Attach { pid: 7 }
    );
    for both in [debug_target(dump(), Some(7)), debug_target(None, None)] {
        assert_eq!(
            both.unwrap_err(),
            "provide exactly one of --dump or --attach"
        );
    }
}

#[test]
fn a_recording_target_is_a_program_or_a_process() {
    let launch = || Some(HostPath::new("app.exe"));
    let args = || vec!["-x".to_string()];
    assert_eq!(
        recording_target(launch(), None, args()).unwrap(),
        RecordingTarget::Launch {
            executable: HostPath::new("app.exe"),
            args: args(),
        }
    );
    assert_eq!(
        recording_target(None, Some(7), Vec::new()).unwrap(),
        RecordingTarget::Attach { pid: 7 }
    );
    assert_eq!(
        recording_target(None, Some(7), args()).unwrap_err(),
        "--attach does not accept launch args"
    );
    for both in [
        recording_target(launch(), Some(7), args()),
        recording_target(None, None, Vec::new()),
    ] {
        assert_eq!(
            both.unwrap_err(),
            "provide exactly one of --launch or --attach"
        );
    }
}

#[test]
fn sessions_are_created_in_a_project() {
    let target = DebugTarget::Dump {
        path: HostPath::new("/dumps/sample.dmp"),
    };
    assert_eq!(
        params(session_create_call(&HostPath::new("/project"), &target).unwrap()),
        (
            "debug.session.create".to_string(),
            Json::object2(
                "project_root",
                Json::text("/project"),
                "target",
                Json::object2(
                    "kind",
                    Json::text("dump"),
                    "path",
                    Json::text("/dumps/sample.dmp")
                )
            )
        )
    );
    assert_eq!(
        session_create_call(
            &HostPath::new("/project"),
            &DebugTarget::Dump { path: opaque() }
        )
        .unwrap_err(),
        "path contains invalid UTF-8 characters"
    );
}

#[test]
fn recordings_are_started_in_a_project() {
    let target = RecordingTarget::Attach { pid: 7 };
    assert_eq!(
        params(recording_start_call(&HostPath::new("/project"), &target).unwrap()),
        (
            "recording.start".to_string(),
            Json::object2(
                "project_root",
                Json::text("/project"),
                "target",
                Json::object2("type", Json::text("attach"), "pid", Json::Uint(7))
            )
        )
    );
    assert!(recording_start_call(
        &HostPath::new("/project"),
        &RecordingTarget::Launch {
            executable: opaque(),
            args: Vec::new(),
        }
    )
    .is_err());
}

#[test]
fn launch_targets_carry_their_arguments() {
    let args = || vec!["a".to_string(), "b".to_string()];
    let document = |tag: &str| {
        Json::object3(
            tag,
            Json::text("launch"),
            "executable",
            Json::text("app.exe"),
            "args",
            Json::array(vec![Json::text("a"), Json::text("b")]),
        )
    };
    assert_eq!(
        debug_target_json(&DebugTarget::Launch {
            executable: HostPath::new("app.exe"),
            args: args(),
        })
        .unwrap(),
        document("kind")
    );
    assert_eq!(
        recording_target_json(&RecordingTarget::Launch {
            executable: HostPath::new("app.exe"),
            args: args(),
        })
        .unwrap(),
        document("type")
    );
}

#[test]
fn recording_commands_call_the_service() {
    for (command, method) in [
        (RecordingCommand::Status, "recording.status"),
        (RecordingCommand::Stop, "recording.stop"),
        (RecordingCommand::Cancel, "recording.cancel"),
        (RecordingCommand::Kill, "recording.kill"),
    ] {
        assert_eq!(
            params(recording_call(command, "r-1".to_string())),
            (
                method.to_string(),
                Json::object1("recording_id", reference("r-1"))
            )
        );
    }
}

fn run(windows_service: bool, config: Option<&str>, token_file: Option<&str>) -> ServiceCommand {
    ServiceCommand::Run {
        bind: "127.0.0.1:7331".to_string(),
        token: "dev-token".to_string(),
        windows_service,
        config: config.map(HostPath::new),
        token_file: token_file.map(HostPath::new),
    }
}

#[test]
fn the_service_says_where_it_listens() {
    assert_eq!(
        run_service(run(false, None, None), false).unwrap(),
        ServiceAction::Serve {
            bind: "127.0.0.1:7331".to_string(),
            token: "dev-token".to_string(),
            lines: vec![
                "DbgAtlas service RPC listening on http://127.0.0.1:7331/rpc".to_string(),
                "DbgAtlas MCP listening on http://127.0.0.1:7331/mcp".to_string(),
            ],
        }
    );
    match run_service(run(false, Some("c"), None), true).unwrap() {
        ServiceAction::Serve { lines, .. } => assert!(lines.is_empty()),
        other => panic!("unexpected action {other:?}"),
    }
}

#[test]
fn the_service_manager_needs_two_files() {
    assert_eq!(
        run_service(run(true, None, None), false).unwrap_err(),
        "--config is required with --windows-service"
    );
    assert_eq!(
        run_service(run(true, Some("c"), None), false).unwrap_err(),
        "--token-file is required with --windows-service"
    );
    assert_eq!(
        run_service(run(true, Some("c"), Some("t")), false).unwrap(),
        ServiceAction::Dispatch {
            config_path: HostPath::new("c"),
            token_file: HostPath::new("t"),
        }
    );
}

#[test]
fn other_service_commands_become_actions() {
    let action = |command: ServiceCommand| run_service(command, false).unwrap();
    for (command, method) in [
        (ServiceCommand::Health, "service.health"),
        (ServiceCommand::Info, "service.info"),
    ] {
        match action(command) {
            ServiceAction::Call(request) => {
                assert_eq!(params(request), (method.to_string(), Json::empty_object()));
            }
            other => panic!("unexpected action {other:?}"),
        }
    }
    assert_eq!(action(ServiceCommand::Start), ServiceAction::Start);
    assert_eq!(action(ServiceCommand::Stop), ServiceAction::Stop);
    assert_eq!(action(ServiceCommand::Status), ServiceAction::Status);
    assert_eq!(
        action(ServiceCommand::Install {
            bind: "x".to_string(),
            force: true,
        }),
        ServiceAction::Install {
            bind: "x".to_string(),
            force: true,
        }
    );
    assert_eq!(
        action(ServiceCommand::Uninstall { purge: true }),
        ServiceAction::Uninstall { purge: true }
    );
    assert_eq!(
        action(ServiceCommand::ApplyUpdate {
            source_dir: HostPath::new("new"),
            timeout_ms: 5,
            no_restart: true,
        }),
        ServiceAction::ApplyUpdate {
            source_dir: HostPath::new("new"),
            restart: false,
            timeout_ms: 5,
        }
    );
}

#[test]
fn answers_are_printed_whole_or_in_part() {
    let refused = || JsonRpcResponse {
        result: None,
        error: Some(JsonRpcError {
            code: -32004,
            message: "session not found".to_string(),
        }),
    };
    assert_eq!(
        print_rpc_response(refused(), false).unwrap_err(),
        "session not found (-32004)"
    );
    assert_eq!(
        print_rpc_response(refused(), true).unwrap(),
        Printed::Response(refused())
    );
    let answered = |result: Option<Json>| JsonRpcResponse {
        result,
        error: None,
    };
    assert_eq!(
        print_rpc_response(answered(Some(Json::Uint(3))), false).unwrap(),
        Printed::Value(Json::Uint(3))
    );
    assert_eq!(
        print_rpc_response(answered(None), false).unwrap(),
        Printed::Value(Json::Null)
    );
}

#[test]
fn documents_are_printed_on_several_lines() {
    assert_eq!(
        print_json(&Json::object2("b", Json::Int(-1), "a", Json::Null)).unwrap(),
        "{\n  \"a\": null,\n  \"b\": -1\n}"
    );
}

#[test]
fn connections_prefer_options_then_what_is_installed() {
    let connection = |endpoint: &str, token: &str| ClientConnection {
        endpoint: endpoint.to_string(),
        token: token.to_string(),
    };
    let text = |value: &str| Some(value.to_string());
    let development = || connection("127.0.0.1:7331", "dev-token");
    let installed = || Ok(Some(connection("127.0.0.1:9", "secret")));
    assert_eq!(
        resolve_client_connection(
            text("e"),
            text("t"),
            Err("unreadable".to_string()),
            development()
        )
        .unwrap(),
        connection("e", "t")
    );
    assert_eq!(
        resolve_client_connection(
            text("e"),
            None,
            Err("unreadable".to_string()),
            development()
        )
        .unwrap_err(),
        "unreadable"
    );
    assert_eq!(
        resolve_client_connection(text("e"), None, installed(), development()).unwrap(),
        connection("e", "secret")
    );
    assert_eq!(
        resolve_client_connection(None, text("t"), installed(), development()).unwrap(),
        connection("127.0.0.1:9", "t")
    );
    assert_eq!(
        resolve_client_connection(None, None, Ok(None), development()).unwrap(),
        development()
    );
}

#[test]
fn installed_services_are_printed() {
    let result = |endpoint: Option<&str>| ServiceCommandResult {
        service_name: "DbgAtlas".to_string(),
        status: "running".to_string(),
        endpoint: endpoint.map(str::to_string),
        installed_binary: HostPath::new("bin/dbgatlas.exe"),
        config_path: HostPath::new("c.toml"),
        token_file: HostPath::new("token"),
        log_dir: HostPath::new("logs"),
    };
    assert_eq!(
        print_service_command_result(&result(Some("127.0.0.1:1"))),
        [
            "service: DbgAtlas",
            "status: running",
            "rpc endpoint: http://127.0.0.1:1/rpc",
            "mcp endpoint: http://127.0.0.1:1/mcp",
            "binary: bin/dbgatlas.exe",
            "config: c.toml",
            "token file: token",
            "log dir: logs",
        ]
    );
    assert_eq!(print_service_command_result(&result(None)).len(), 6);
}

#[test]
fn workspaces_are_printed() {
    let root = HostPath::new("case");
    let manifest = HostPath::new("case/dbgatlas-workspace.json");
    assert_eq!(
        init_lines(&root, &manifest),
        [
            "initialized workspace: case",
            "manifest: case/dbgatlas-workspace.json"
        ]
    );
    assert_eq!(
        init_document(&root, &manifest, &Id::new("case").unwrap()),
        Json::object3(
            "root",
            Json::text("case"),
            "manifest",
            Json::text("case/dbgatlas-workspace.json"),
            "workspace_id",
            Json::text("case")
        )
    );
    let workspace = Workspace::init(
        HostPath::new("case"),
        WorkspaceInitOptions::default(),
        false,
        Timestamp { unix_millis: 1 },
    )
    .unwrap()
    .workspace
    .unwrap();
    let info = workspace.info(LayoutDirs {
        artifacts: true,
        analysis: true,
        inputs: false,
    });
    assert_eq!(
        info_lines(&info),
        [
            "workspace: case",
            "workspace id: case",
            "schema version: 1",
            "artifacts dir: true",
            "analysis dir: true",
            "inputs dir: false",
        ]
    );
    let facts = WorkspaceFacts {
        artifacts: Vec::new(),
        operations: Vec::new(),
        command_audit: Vec::new(),
    };
    assert_eq!(
        facts_lines(&root, &facts),
        [
            "workspace: case",
            "artifacts: 0",
            "operations: 0",
            "command audit records: 0",
        ]
    );
}

#[test]
fn native_versions_are_printed() {
    assert_eq!(
        native_version_line(&NativeVersion {
            abi_major: 0,
            abi_minor: 12,
            abi_patch: 3,
        }),
        "native ABI version: 0.12.3"
    );
}
