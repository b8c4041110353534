//! Laws on the command line.

use crate::cli::{
    debug_call, debug_target, debug_target_json, facts_lines, info_lines, init_document, init_lines,
    native_version_line, print_json, print_rpc_response, print_service_command_result,
    recording_call, recording_start_call, recording_target, recording_target_json,
    resolve_client_connection, run_service, session_create_call, ClientConnection, DebugCommand,
    Printed, RecordingCommand, ServiceAction, ServiceCommand, ServiceCommandResult,
};
use crate::debug::DebugTarget;
use crate::dbgeng::NativeVersion;
use crate::json::{Json, JsonView};
use crate::laws::document::{has_fields, holds, is_request, lists_texts, params_of, refers};
use crate::laws::text::tells;
use crate::model::Id;
use crate::path::HostPath;
use crate::recording::RecordingTarget;
use crate::rpc::{JsonRpcRequest, JsonRpcResponse};
use crate::workspace::{WorkspaceFacts, WorkspaceInfo};
use crate::{json, laws, path, text};
use vstd::prelude::*;
use vstd::string::*;

verus! {

/// The session that a command is for.
pub open spec fn session_of(command: DebugCommand) -> Seq<char> {
    match command {
        DebugCommand::Eval { session_id, .. } => session_id@,
        DebugCommand::Modules { session_id } => session_id@,
        DebugCommand::Threads { session_id } => session_id@,
        DebugCommand::Stack { session_id } => session_id@,
        DebugCommand::ReadMemory { session_id, .. } => session_id@,
        DebugCommand::AddSymbols { session_id, .. } => session_id@,
        DebugCommand::Close { session_id } => session_id@,
        DebugCommand::Kill { session_id } => session_id@,
    }
}

/// A debug command is sent to the session that it names, under a method of its
/// own, with every option as it was given and nothing else.
pub proof fn law_debug_calls_carry_the_command(command: DebugCommand, request: JsonRpcRequest)
    requires
        call_ensures(debug_call, (command,), request),
    ensures
        is_request(request),
        exists|id: JsonView|
            #![trigger refers(id, session_of(command))]
            holds(params_of(request), "session_id"@, id) && refers(id, session_of(command)),
        command matches DebugCommand::Eval { command: text, .. } ==> {
            &&& request.method@ == "debug.eval"@
            &&& has_fields(params_of(request), 2)
            &&& holds(params_of(request), "command"@, JsonView::Text(text@))
        },
        command is Modules ==> request.method@ == "debug.modules"@ && has_fields(
            params_of(request),
            1,
        ),
        command is Threads ==> request.method@ == "debug.threads"@ && has_fields(
            params_of(request),
            1,
        ),
        command is Stack ==> request.method@ == "debug.stack"@ && has_fields(params_of(request), 1),
        command matches DebugCommand::ReadMemory { address, length, .. } ==> {
            &&& request.method@ == "debug.read_memory"@
            &&& has_fields(params_of(request), 3)
            &&& holds(params_of(request), "address"@, JsonView::Text(address@))
            &&& holds(params_of(request), "length"@, JsonView::Uint(length))
        },
        command matches DebugCommand::AddSymbols { symbol_path, reload, .. } ==> {
            &&& request.method@ == "debug.add_symbols"@
            &&& has_fields(params_of(request), 3)
            &&& holds(params_of(request), "symbol_path"@, JsonView::Text(symbol_path@))
            &&& holds(params_of(request), "reload"@, JsonView::Bool(reload))
        },
        command is Close ==> request.method@ == "debug.session.close"@ && has_fields(
            params_of(request),
            1,
        ),
        command is Kill ==> request.method@ == "debug.session.kill"@ && has_fields(
            params_of(request),
            1,
        ),
{
    let fields = params_of(request)->Object_0;
    let id = fields[0].1;
    assert(id->Object_0[0] == ("id"@, JsonView::Text(session_of(command))));
    assert(refers(id, session_of(command)));
    assert(fields[0] == ("session_id"@, id));
    match command {
        DebugCommand::Eval { command: text, .. } => {
            assert(fields[1] == ("command"@, JsonView::Text(text@)));
        },
        DebugCommand::ReadMemory { address, length, .. } => {
            assert(fields[1] == ("address"@, JsonView::Text(address@)));
            assert(fields[2] == ("length"@, JsonView::Uint(length)));
        },
        DebugCommand::AddSymbols { symbol_path, reload, .. } => {
            assert(fields[1] == ("symbol_path"@, JsonView::Text(symbol_path@)));
            assert(fields[2] == ("reload"@, JsonView::Bool(reload)));
        },
        _ => {},
    }
}

/// Two commands on recordings make the same call only where they are the same
/// command on the same recording.
pub proof fn law_recording_calls_carry_the_command(
    command: RecordingCommand,
    recording_id: String,
    request: JsonRpcRequest,
)
    requires
        call_ensures(recording_call, (command, recording_id), request),
    ensures
        is_request(request),
        has_fields(params_of(request), 1),
        exists|id: JsonView|
            #![trigger refers(id, recording_id@)]
            holds(params_of(request), "recording_id"@, id) && refers(id, recording_id@),
        command is Status <==> request.method@ == "recording.status"@,
        command is Stop <==> request.method@ == "recording.stop"@,
        command is Cancel <==> request.method@ == "recording.cancel"@,
        command is Kill <==> request.method@ == "recording.kill"@,
{
    let fields = params_of(request)->Object_0;
    let id = fields[0].1;
    assert(id->Object_0[0] == ("id"@, JsonView::Text(recording_id@)));
    assert(refers(id, recording_id@));
    assert(fields[0] == ("recording_id"@, id));
    reveal_strlit("recording.status");
    reveal_strlit("recording.stop");
    reveal_strlit("recording.cancel");
    reveal_strlit("recording.kill");
    assert("recording.status"@[10] == 's');
    assert("recording.cancel"@[10] == 'c');
    assert("recording.stop"@[10] == 's');
    assert("recording.kill"@[10] == 'k');
    assert("recording.status"@ != "recording.cancel"@);
    assert("recording.stop"@ != "recording.kill"@);
    assert("recording.status"@.len() != "recording.stop"@.len());
}

/// A new debug session is asked for in the project and on the target that were
/// given: a dump by its path, a process by its number.
pub proof fn law_new_sessions_are_on_the_target(
    project_root: HostPath,
    target: DebugTarget,
    outcome: Result<JsonRpcRequest, String>,
)
    requires
        call_ensures(session_create_call, (&project_root, &target), outcome),
    ensures
        outcome is Err <==> match target {
            DebugTarget::Dump { path } => path@.raw is Some,
            DebugTarget::Launch { executable, .. } => executable@.raw is Some,
            DebugTarget::Attach { .. } => false,
        },
        outcome matches Ok(request) ==> {
            &&& is_request(request)
            &&& request.method@ == "debug.session.create"@
            &&& has_fields(params_of(request), 2)
            &&& holds(params_of(request), "project_root"@, JsonView::Text(project_root@.text))
            &&& exists|document: JsonView|
                #![trigger holds(params_of(request), "target"@, document)]
                holds(params_of(request), "target"@, document) && match target {
                    DebugTarget::Dump { path } => {
                        &&& has_fields(document, 2)
                        &&& holds(document, "kind"@, JsonView::Text("dump"@))
                        &&& holds(document, "path"@, JsonView::Text(path@.text))
                    },
                    DebugTarget::Attach { pid } => {
                        &&& has_fields(document, 2)
                        &&& holds(document, "kind"@, JsonView::Text("attach"@))
                        &&& holds(document, "pid"@, JsonView::Uint(pid as u64))
                    },
                    DebugTarget::Launch { executable, args } => launches(
                        document,
                        "kind"@,
                        executable@,
                        args@,
                    ),
                }
        },
{
    if let Ok(request) = outcome {
        let fields = params_of(request)->Object_0;
        assert(fields[0] == ("project_root"@, JsonView::Text(project_root@.text)));
        let document = fields[1].1;
        assert(fields[1] == ("target"@, document));
        assert(holds(params_of(request), "target"@, document));
        let inner = document->Object_0;
        match target {
            DebugTarget::Dump { path } => {
                assert(inner[0] == ("kind"@, JsonView::Text("dump"@)));
                assert(inner[1] == ("path"@, JsonView::Text(path@.text)));
            },
            DebugTarget::Attach { pid } => {
                assert(inner[0] == ("kind"@, JsonView::Text("attach"@)));
                assert(inner[1] == ("pid"@, JsonView::Uint(pid as u64)));
            },
            DebugTarget::Launch { executable, args } => {
                lemma_launches(document, "kind"@, executable@, args@);
            },
        }
    }
}

/// The document names a program to launch, with all of its arguments in order.
pub open spec fn launches(
    document: JsonView,
    tag: Seq<char>,
    executable: path::PathView,
    args: Seq<String>,
) -> bool {
    &&& has_fields(document, 3)
    &&& holds(document, tag, JsonView::Text("launch"@))
    &&& holds(document, "executable"@, JsonView::Text(executable.text))
    &&& exists|list: JsonView|
        #![trigger lists_texts(list, args)]
        holds(document, "args"@, list) && lists_texts(list, args)
}

proof fn lemma_launches(
    document: JsonView,
    tag: Seq<char>,
    executable: path::PathView,
    args: Seq<String>,
)
    requires
        crate::cli::launch_document(tag, executable, path::text_views(args)) == Ok::<
            JsonView,
            Seq<char>,
        >(document),
    ensures
        launches(document, tag, executable, args),
{
    let inner = document->Object_0;
    assert(inner[0] == (tag, JsonView::Text("launch"@)));
    assert(inner[1] == ("executable"@, JsonView::Text(executable.text)));
    let list = inner[2].1;
    assert(inner[2] == ("args"@, list));
    assert(lists_texts(list, args));
}

/// A recording is asked for in the project and on the target that were given.
pub proof fn law_new_recordings_are_on_the_target(
    project_root: HostPath,
    target: RecordingTarget,
    outcome: Result<JsonRpcRequest, String>,
)
    requires
        call_ensures(recording_start_call, (&project_root, &target), outcome),
    ensures
        outcome is Err <==> target is Launch && target->executable@.raw is Some,
        outcome matches Ok(request) ==> {
            &&& is_request(request)
            &&& request.method@ == "recording.start"@
            &&& has_fields(params_of(request), 2)
            &&& holds(params_of(request), "project_root"@, JsonView::Text(project_root@.text))
            &&& exists|document: JsonView|
                #![trigger holds(params_of(request), "target"@, document)]
                holds(params_of(request), "target"@, document) && match target {
                    RecordingTarget::Attach { pid } => {
                        &&& has_fields(document, 2)
                        &&& holds(document, "type"@, JsonView::Text("attach"@))
                        &&& holds(document, "pid"@, JsonView::Uint(pid as u64))
                    },
                    RecordingTarget::Launch { executable, args } => launches(
                        document,
                        "type"@,
                        executable@,
                        args@,
                    ),
                }
        },
{
    if let Ok(request) = outcome {
        let fields = params_of(request)->Object_0;
        assert(fields[0] == ("project_root"@, JsonView::Text(project_root@.text)));
        let document = fields[1].1;
        assert(fields[1] == ("target"@, document));
        assert(holds(params_of(request), "target"@, document));
        let inner = document->Object_0;
        match target {
            RecordingTarget::Attach { pid } => {
                assert(inner[0] == ("type"@, JsonView::Text("attach"@)));
                assert(inner[1] == ("pid"@, JsonView::Uint(pid as u64)));
            },
            RecordingTarget::Launch { executable, args } => {
                lemma_launches(document, "type"@, executable@, args@);
            },
        }
    }
}

/// A target is taken from the options where exactly one is given, as it is.
pub proof fn law_one_debug_target_is_named(
    dump: Option<HostPath>,
    attach: Option<u32>,
    outcome: Result<DebugTarget, String>,
)
    requires
        call_ensures(debug_target, (dump, attach), outcome),
    ensures
        outcome is Ok <==> (dump is Some) != (attach is Some),
        outcome matches Ok(DebugTarget::Dump { path }) ==> dump == Some(path),
        outcome matches Ok(DebugTarget::Attach { pid }) ==> attach == Some(pid),
        !(outcome matches Ok(DebugTarget::Launch { .. })),
{
}

/// A recording target is taken from the options where exactly one is given, as
/// it is; arguments are for a program alone, and none is dropped.
pub proof fn law_one_recording_target_is_named(
    launch: Option<HostPath>,
    attach: Option<u32>,
    args: Vec<String>,
    outcome: Result<RecordingTarget, String>,
)
    requires
        call_ensures(recording_target, (launch, attach, args), outcome),
    ensures
        outcome is Ok <==> (launch is Some) != (attach is Some) && (attach is Some ==> args@.len()
            == 0),
        outcome matches Ok(RecordingTarget::Launch { executable, args: kept }) ==> launch == Some(
            executable,
        ) && kept == args,
        outcome matches Ok(RecordingTarget::Attach { pid }) ==> attach == Some(pid),
{
}

/// What the options name is used before all else, what is installed before
/// what a service in development has, and endpoint and token are each taken
/// from their own place.
pub proof fn law_named_connections_come_first(
    endpoint: Option<String>,
    token: Option<String>,
    installed: Result<Option<ClientConnection>, String>,
    development: ClientConnection,
    outcome: Result<ClientConnection, String>,
)
    requires
        call_ensures(resolve_client_connection, (endpoint, token, installed, development), outcome),
    ensures
        outcome is Err <==> installed is Err && (endpoint is None || token is None),
        outcome matches Err(reason) ==> installed->Err_0 == reason,
        outcome matches Ok(found) ==> {
            &&& endpoint matches Some(at) ==> found.endpoint == at
            &&& token matches Some(with) ==> found.token == with
            &&& installed matches Ok(Some(known)) ==> {
                &&& endpoint is None ==> found.endpoint == known.endpoint
                &&& token is None ==> found.token == known.token
            }
            &&& installed matches Ok(None) ==> {
                &&& endpoint is None ==> found.endpoint == development.endpoint
                &&& token is None ==> found.token == development.token
            }
        },
{
}

/// A command on the service leads to what it names, with every option as it
/// was given: a restart follows an update unless it was declined.
pub proof fn law_service_commands_do_what_they_name(
    command: ServiceCommand,
    as_json: bool,
    outcome: Result<ServiceAction, String>,
)
    requires
        call_ensures(run_service, (command, as_json), outcome),
    ensures
        outcome is Err <==> command is Run && command->windows_service && (command->config is None
            || command->token_file is None),
        outcome matches Ok(action) ==> match command {
            ServiceCommand::Run { bind, token, windows_service, config, token_file } => match action {
                ServiceAction::Dispatch { config_path, token_file: file } => windows_service
                    && config == Some(config_path) && token_file == Some(file),
                ServiceAction::Serve { bind: at, token: with, lines } => {
                    &&& !windows_service
                    &&& at == bind
                    &&& with == token
                    &&& as_json ==> lines@.len() == 0
                    &&& !as_json ==> lines@.len() == 2 && ends_with(
                        lines@[0]@,
                        bind@ + "/rpc"@,
                    ) && ends_with(lines@[1]@, bind@ + "/mcp"@)
                },
                _ => false,
            },
            ServiceCommand::Health => action matches ServiceAction::Call(request) && is_request(
                request,
            ) && request.method@ == "service.health"@ && has_fields(params_of(request), 0),
            ServiceCommand::Info => action matches ServiceAction::Call(request) && is_request(
                request,
            ) && request.method@ == "service.info"@ && has_fields(params_of(request), 0),
            ServiceCommand::Install { bind, force } => action matches ServiceAction::Install {
                bind: at,
                force: forced,
            } && at == bind && forced == force,
            ServiceCommand::Start => action is Start,
            ServiceCommand::Stop => action is Stop,
            ServiceCommand::Status => action is Status,
            ServiceCommand::Uninstall { purge } => action matches ServiceAction::Uninstall {
                purge: purged,
            } && purged == purge,
            ServiceCommand::ApplyUpdate { source_dir, timeout_ms, no_restart } => action
                matches ServiceAction::ApplyUpdate {
                source_dir: from,
                restart,
                timeout_ms: within,
            } && from == source_dir && restart != no_restart && within == timeout_ms,
        },
{
    if let Ok(ServiceAction::Serve { bind, token, lines }) = outcome {
        let shown = path::text_views(lines@);
        assert(shown.len() == lines@.len());
        if !as_json {
            assert(shown[0] == lines@[0]@);
            assert(shown[1] == lines@[1]@);
            lemma_ends_with(
                "DbgAtlas service RPC listening on http://"@,
                bind@,
                "/rpc"@,
            );
            lemma_ends_with("DbgAtlas MCP listening on http://"@, bind@, "/mcp"@);
        }
    }
}

/// The text ends with another.
pub open spec fn ends_with(text: Seq<char>, end: Seq<char>) -> bool {
    end.is_suffix_of(text)
}

proof fn lemma_ends_with(before: Seq<char>, middle: Seq<char>, after: Seq<char>)
    ensures
        ends_with(before + middle + after, middle + after),
{
    let whole = before + middle + after;
    let end = middle + after;
    assert(whole.subrange(whole.len() - end.len(), whole.len() as int) =~= end);
}

/// With `as_json` all of an answer is printed. Else a refusal is an error that
/// tells its message and its code, and what is printed is the result.
pub proof fn law_answers_are_printed(
    response: JsonRpcResponse,
    as_json: bool,
    printed: Result<Printed, String>,
)
    requires
        call_ensures(print_rpc_response, (response, as_json), printed),
    ensures
        printed is Err <==> !as_json && response.error is Some,
        as_json ==> (printed matches Ok(Printed::Response(shown)) && shown == response),
        !as_json && response.error is None ==> (printed matches Ok(Printed::Value(value)) && match
            response.result {
            Some(result) => value == result,
            None => value@ is Null,
        }),
        printed matches Err(reason) ==> response.error->0.message@.is_prefix_of(reason@),
{
    if let Err(reason) = printed {
        let told = response.error->0.message@;
        assert(reason@.subrange(0, told.len() as int) =~= told);
    }
}

/// What is printed of a workspace tells of each of its directories whether it
/// is there.
pub proof fn law_info_tells_of_each_directory(info: WorkspaceInfo, lines: Vec<String>)
    requires
        call_ensures(info_lines, (&info,), lines),
    ensures
        lines@.len() == 6,
        lines@[0]@ == "workspace: "@ + info.root@.text,
        lines@[1]@ == "workspace id: "@ + info.manifest.workspace_id@,
        exists|number: Seq<char>|
            #![trigger tells(number, info.manifest.schema_version as int)]
            tells(number, info.manifest.schema_version as int) && lines@[2]@ == "schema version: "@
                + number,
        lines@[3]@ == "artifacts dir: "@ + (if info.has_artifacts_dir {
            "true"@
        } else {
            "false"@
        }),
        lines@[4]@ == "analysis dir: "@ + (if info.has_analysis_dir {
            "true"@
        } else {
            "false"@
        }),
        lines@[5]@ == "inputs dir: "@ + (if info.has_inputs_dir {
            "true"@
        } else {
            "false"@
        }),
{
    let shown = path::text_views(lines@);
    assert(shown.len() == lines@.len());
    assert(forall|i: int| 0 <= i < 6 ==> shown[i] == #[trigger] lines@[i]@);
    laws::text::law_numbers_are_read_back(info.manifest.schema_version as nat);
    assert(tells(
        text::decimal(info.manifest.schema_version as nat),
        info.manifest.schema_version as int,
    ));
}

/// What is printed of the logs of a workspace counts each of them.
pub proof fn law_facts_are_counted(root: HostPath, facts: WorkspaceFacts, lines: Vec<String>)
    requires
        call_ensures(facts_lines, (&root, &facts), lines),
    ensures
        lines@.len() == 4,
        lines@[0]@ == "workspace: "@ + root@.text,
        counts_behind(lines@[1]@, "artifacts: "@, facts.artifacts@.len() as int),
        counts_behind(lines@[2]@, "operations: "@, facts.operations@.len() as int),
        counts_behind(
            lines@[3]@,
            "command audit records: "@,
            facts.command_audit@.len() as int,
        ),
{
    let shown = path::text_views(lines@);
    assert(shown.len() == lines@.len());
    assert(forall|i: int| 0 <= i < 4 ==> shown[i] == #[trigger] lines@[i]@);
    laws::text::law_numbers_are_read_back(facts.artifacts@.len());
    laws::text::law_numbers_are_read_back(facts.operations@.len());
    laws::text::law_numbers_are_read_back(facts.command_audit@.len());
    assert(tells(text::decimal(facts.artifacts@.len()), facts.artifacts@.len() as int));
    assert(tells(text::decimal(facts.operations@.len()), facts.operations@.len() as int));
    assert(tells(text::decimal(facts.command_audit@.len()), facts.command_audit@.len() as int));
}

/// The line is a number behind a text.
pub open spec fn counts_behind(line: Seq<char>, before: Seq<char>, value: int) -> bool {
    exists|number: Seq<char>|
        #![trigger tells(number, value)]
        tells(number, value) && line == before + number
}

/// What is printed of an installed service names its files, each behind its
/// own label.
pub proof fn law_service_results_are_labelled(result: ServiceCommandResult, lines: Vec<String>)
    requires
        call_ensures(print_service_command_result, (&result,), lines),
    ensures
        lines@.len() == (if result.endpoint is Some {
            8int
        } else {
            6int
        }),
        lines@[0]@ == "service: "@ + result.service_name@,
        lines@[1]@ == "status: "@ + result.status@,
        result.endpoint matches Some(at) ==> lines@[2]@ == "rpc endpoint: http://"@ + at@
            + "/rpc"@ && lines@[3]@ == "mcp endpoint: http://"@ + at@ + "/mcp"@,
        lines@[lines@.len() - 4]@ == "binary: "@ + result.installed_binary@.text,
        lines@[lines@.len() - 3]@ == "config: "@ + result.config_path@.text,
        lines@[lines@.len() - 2]@ == "token file: "@ + result.token_file@.text,
        lines@[lines@.len() - 1]@ == "log dir: "@ + result.log_dir@.text,
{
    let shown = path::text_views(lines@);
    assert(shown.len() == lines@.len());
    assert(forall|i: int| 0 <= i < shown.len() ==> shown[i] == #[trigger] lines@[i]@);
}

/// A debug target is told by its kind and by what names it.
pub proof fn law_debug_targets_are_told(target: DebugTarget, outcome: Result<Json, String>)
    requires
        call_ensures(debug_target_json, (&target,), outcome),
    ensures
        target matches DebugTarget::Dump { path } ==> {
            &&& outcome is Ok <==> path@.raw is None
            &&& outcome matches Ok(document) ==> has_fields(document@, 2) && holds(
                document@,
                "kind"@,
                JsonView::Text("dump"@),
            ) && holds(document@, "path"@, JsonView::Text(path@.text))
        },
        target matches DebugTarget::Attach { pid } ==> {
            &&& outcome matches Ok(document)
            &&& has_fields(document@, 2)
            &&& holds(document@, "kind"@, JsonView::Text("attach"@))
            &&& holds(document@, "pid"@, JsonView::Uint(pid as u64))
        },
        target matches DebugTarget::Launch { executable, args } ==> {
            &&& outcome is Ok <==> executable@.raw is None
            &&& outcome matches Ok(document) ==> launches(
                document@,
                "kind"@,
                executable@,
                args@,
            )
        },
{
    if let Ok(document) = outcome {
        let fields = document@->Object_0;
        match target {
            DebugTarget::Dump { path } => {
                assert(fields[0] == ("kind"@, JsonView::Text("dump"@)));
                assert(fields[1] == ("path"@, JsonView::Text(path@.text)));
            },
            DebugTarget::Attach { pid } => {
                assert(fields[0] == ("kind"@, JsonView::Text("attach"@)));
                assert(fields[1] == ("pid"@, JsonView::Uint(pid as u64)));
            },
            DebugTarget::Launch { executable, args } => {
                lemma_launches(document@, "kind"@, executable@, args@);
            },
        }
    }
}

/// A recording target is told by its type and by what names it.
pub proof fn law_recording_targets_are_told(target: RecordingTarget, outcome: Result<Json, String>)
    requires
        call_ensures(recording_target_json, (&target,), outcome),
    ensures
        target matches RecordingTarget::Attach { pid } ==> {
            &&& outcome matches Ok(document)
            &&& has_fields(document@, 2)
            &&& holds(document@, "type"@, JsonView::Text("attach"@))
            &&& holds(document@, "pid"@, JsonView::Uint(pid as u64))
        },
        target matches RecordingTarget::Launch { executable, args } ==> {
            &&& outcome is Ok <==> executable@.raw is None
            &&& outcome matches Ok(document) ==> launches(
                document@,
                "type"@,
                executable@,
                args@,
            )
        },
{
    if let Ok(document) = outcome {
        let fields = document@->Object_0;
        match target {
            RecordingTarget::Attach { pid } => {
                assert(fields[0] == ("type"@, JsonView::Text("attach"@)));
                assert(fields[1] == ("pid"@, JsonView::Uint(pid as u64)));
            },
            RecordingTarget::Launch { executable, args } => {
                lemma_launches(document@, "type"@, executable@, args@);
            },
        }
    }
}

/// A new workspace is told by its root, its manifest and its identifier.
pub proof fn law_new_workspaces_are_told(
    root: HostPath,
    manifest: HostPath,
    id: Id,
    document: Json,
    lines: Vec<String>,
)
    requires
        call_ensures(init_document, (&root, &manifest, &id), document),
        call_ensures(init_lines, (&root, &manifest), lines),
    ensures
        has_fields(document@, 3),
        holds(document@, "root"@, JsonView::Text(root@.text)),
        holds(document@, "manifest"@, JsonView::Text(manifest@.text)),
        holds(document@, "workspace_id"@, JsonView::Text(id@)),
        lines@.len() == 2,
        lines@[0]@ == "initialized workspace: "@ + root@.text,
        lines@[1]@ == "manifest: "@ + manifest@.text,
{
    let fields = document@->Object_0;
    assert(fields[0] == ("root"@, JsonView::Text(root@.text)));
    assert(fields[1] == ("manifest"@, JsonView::Text(manifest@.text)));
    assert(fields[2] == ("workspace_id"@, JsonView::Text(id@)));
    let views = path::text_views(lines@);
    assert(views.len() == lines@.len());
    assert(views[0] == lines@[0]@);
    assert(views[1] == lines@[1]@);
}

/// A version is printed number by number, and a document as it is written.
pub proof fn law_versions_are_printed_in_order(
    version: NativeVersion,
    line: String,
    value: Json,
    printed: Result<String, String>,
)
    requires
        call_ensures(native_version_line, (&version,), line),
        call_ensures(print_json, (&value,), printed),
    ensures
        exists|major: Seq<char>, minor: Seq<char>, patch: Seq<char>|
            #![trigger tells(major, version.abi_major as int), tells(minor, version.abi_minor as int), tells(patch, version.abi_patch as int)]
            tells(major, version.abi_major as int) && tells(minor, version.abi_minor as int)
                && tells(patch, version.abi_patch as int) && line@ == "native ABI version: "@
                + major + "."@ + minor + "."@ + patch,
        printed matches Ok(written) ==> json::pretty_text(value@) == Ok::<Seq<char>, Seq<char>>(
            written@,
        ),
        printed matches Err(reason) ==> json::pretty_text(value@) == Err::<Seq<char>, Seq<char>>(
            reason@,
        ),
{
    let major = text::decimal(version.abi_major as nat);
    let minor = text::decimal(version.abi_minor as nat);
    let patch = text::decimal(version.abi_patch as nat);
    laws::text::law_numbers_are_read_back(version.abi_major as nat);
    laws::text::law_numbers_are_read_back(version.abi_minor as nat);
    laws::text::law_numbers_are_read_back(version.abi_patch as nat);
    assert(tells(major, version.abi_major as int));
    assert(tells(minor, version.abi_minor as int));
    assert(tells(patch, version.abi_patch as int));
}

/// Options that name no target, or two, are refused with what was expected.
pub proof fn law_refused_targets_say_what_is_expected(
    dump: Option<HostPath>,
    launch: Option<HostPath>,
    attach: Option<u32>,
    args: Vec<String>,
    debug: Result<DebugTarget, String>,
    recording: Result<RecordingTarget, String>,
)
    requires
        call_ensures(debug_target, (dump, attach), debug),
        call_ensures(recording_target, (launch, attach, args), recording),
    ensures
        debug matches Err(reason) ==> reason@ == "provide exactly one of --dump or --attach"@,
        recording matches Err(reason) ==> reason@ == if (launch is Some) != (attach is Some) {
            "--attach does not accept launch args"@
        } else {
            "provide exactly one of --launch or --attach"@
        },
{
}

/// A refusal is printed with its message and its code, and a service that is
/// run without a file that it needs is told which.
pub proof fn law_refusals_are_printed(
    response: JsonRpcResponse,
    printed: Result<Printed, String>,
    command: ServiceCommand,
    as_json: bool,
    outcome: Result<ServiceAction, String>,
)
    requires
        call_ensures(print_rpc_response, (response, false), printed),
        call_ensures(run_service, (command, as_json), outcome),
    ensures
        response.error matches Some(error) ==> (printed matches Err(reason) && reason@
            == error.message@ + " ("@ + text::signed_decimal(error.code as int) + ")"@),
        outcome matches Err(reason) ==> reason@ == if command->config is None {
            "--config is required with --windows-service"@
        } else {
            "--token-file is required with --windows-service"@
        },
        outcome matches Ok(ServiceAction::Serve { bind, lines, .. }) ==> (!as_json ==> {
            &&& lines@[0]@ == "DbgAtlas service RPC listening on http://"@ + bind@ + "/rpc"@
            &&& lines@[1]@ == "DbgAtlas MCP listening on http://"@ + bind@ + "/mcp"@
        }),
{
    if let Ok(ServiceAction::Serve { bind, token, lines }) = outcome {
        let shown = path::text_views(lines@);
        assert(shown.len() == lines@.len());
        if !as_json {
            assert(shown[0] == lines@[0]@);
            assert(shown[1] == lines@[1]@);
        }
    }
}

/// A path that is not Unicode is told of nowhere, and the reason says so.
pub proof fn law_paths_are_told_as_text(
    target: DebugTarget,
    outcome: Result<Json, String>,
    recorded: RecordingTarget,
    told: Result<Json, String>,
)
    requires
        call_ensures(debug_target_json, (&target,), outcome),
        call_ensures(recording_target_json, (&recorded,), told),
    ensures
        outcome matches Err(reason) ==> reason@ == "path contains invalid UTF-8 characters"@,
        told matches Err(reason) ==> reason@ == "path contains invalid UTF-8 characters"@,
{
}

} // verus!
