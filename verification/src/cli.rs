//! The command line: what each command asks of the service, and what it prints.

use crate::dbgeng::NativeVersion;
use crate::debug::DebugTarget;
use crate::json::{write_pretty, Json};
use crate::model::Id;
use crate::path::HostPath;
use crate::recording::RecordingTarget;
use crate::rpc::{rpc_call, JsonRpcRequest, JsonRpcResponse};
use crate::workspace::{WorkspaceFacts, WorkspaceInfo};
use crate::{json, mcp, path, rpc, text};
use vstd::prelude::*;
use vstd::string::*;

verus! {

/// What is asked of a debug session.
#[derive(Debug, PartialEq, Eq)]
pub enum DebugCommand {
    Eval { session_id: String, command: String },
    Modules { session_id: String },
    Threads { session_id: String },
    Stack { session_id: String },
    ReadMemory { session_id: String, address: String, length: u64 },
    AddSymbols { session_id: String, symbol_path: String, reload: bool },
    Close { session_id: String },
    Kill { session_id: String },
}

/// A reference, as the service reads it.
pub open spec fn id_object(id: Seq<char>) -> json::JsonView {
    json::JsonView::Object(seq![("id"@, json::JsonView::Text(id))])
}

/// Parameters that name a session and nothing else.
pub open spec fn session_params(session_id: Seq<char>) -> json::JsonView {
    json::JsonView::Object(seq![("session_id"@, id_object(session_id))])
}

/// The method that a command calls, and its parameters.
pub open spec fn debug_call_of(command: DebugCommand) -> (Seq<char>, json::JsonView) {
    match command {
        DebugCommand::Eval { session_id, command } => (
            "debug.eval"@,
            json::JsonView::Object(
                seq![
                    ("session_id"@, id_object(session_id@)),
                    ("command"@, json::JsonView::Text(command@)),
                ],
            ),
        ),
        DebugCommand::Modules { session_id } => ("debug.modules"@, session_params(session_id@)),
        DebugCommand::Threads { session_id } => ("debug.threads"@, session_params(session_id@)),
        DebugCommand::Stack { session_id } => ("debug.stack"@, session_params(session_id@)),
        DebugCommand::ReadMemory { session_id, address, length } => (
            "debug.read_memory"@,
            json::JsonView::Object(
                seq![
                    ("session_id"@, id_object(session_id@)),
                    ("address"@, json::JsonView::Text(address@)),
                    ("length"@, json::JsonView::Uint(length)),
                ],
            ),
        ),
        DebugCommand::AddSymbols { session_id, symbol_path, reload } => (
            "debug.add_symbols"@,
            json::JsonView::Object(
                seq![
                    ("session_id"@, id_object(session_id@)),
                    ("symbol_path"@, json::JsonView::Text(symbol_path@)),
                    ("reload"@, json::JsonView::Bool(reload)),
                ],
            ),
        ),
        DebugCommand::Close { session_id } => (
            "debug.session.close"@,
            session_params(session_id@),
        ),
        DebugCommand::Kill { session_id } => ("debug.session.kill"@, session_params(session_id@)),
    }
}

fn id_json(id: String) -> (document: Json)
    ensures
        document@ == id_object(id@),
{
    Json::object1("id", Json::Text(id))
}

fn session_tool(method: &str, session_id: String) -> (request: JsonRpcRequest)
    ensures
        rpc::is_call(request, method@, session_params(session_id@)),
{
    rpc_call(method, Json::object1("session_id", id_json(session_id)))
}

/// The call that a command makes.
pub fn debug_call(command: DebugCommand) -> (request: JsonRpcRequest)
    ensures
        rpc::is_call(request, debug_call_of(command).0, debug_call_of(command).1),
{
    match command {
        DebugCommand::Eval { session_id, command } => rpc_call(
            "debug.eval",
            Json::object2("session_id", id_json(session_id), "command", Json::Text(command)),
        ),
        DebugCommand::Modules { session_id } => session_tool("debug.modules", session_id),
        DebugCommand::Threads { session_id } => session_tool("debug.threads", session_id),
        DebugCommand::Stack { session_id } => session_tool("debug.stack", session_id),
        DebugCommand::ReadMemory { session_id, address, length } => rpc_call(
            "debug.read_memory",
            Json::object3(
                "session_id",
                id_json(session_id),
                "address",
                Json::Text(address),
                "length",
                Json::Uint(length),
            ),
        ),
        DebugCommand::AddSymbols { session_id, symbol_path, reload } => rpc_call(
            "debug.add_symbols",
            Json::object3(
                "session_id",
                id_json(session_id),
                "symbol_path",
                Json::Text(symbol_path),
                "reload",
                Json::Bool(reload),
            ),
        ),
        DebugCommand::Close { session_id } => session_tool("debug.session.close", session_id),
        DebugCommand::Kill { session_id } => session_tool("debug.session.kill", session_id),
    }
}

/// The target of a new debug session, from the options: a dump or a process,
/// and not both. A dump still has to be resolved by the host.
pub fn debug_target(dump: Option<HostPath>, attach: Option<u32>) -> (target: Result<
    DebugTarget,
    String,
>)
    ensures
        match (dump, attach) {
            (Some(path), None) => target == Ok::<DebugTarget, String>(DebugTarget::Dump { path }),
            (None, Some(pid)) => target == Ok::<DebugTarget, String>(DebugTarget::Attach { pid }),
            _ => target matches Err(reason) && reason@
                == "provide exactly one of --dump or --attach"@,
        },
{
    match (dump, attach) {
        (Some(path), None) => Ok(DebugTarget::Dump { path }),
        (None, Some(pid)) => Ok(DebugTarget::Attach { pid }),
        _ => Err("provide exactly one of --dump or --attach".to_owned()),
    }
}

/// The target of a new recording, from the options: a program or a process,
/// and not both. Arguments go to a program only.
pub fn recording_target(
    launch: Option<HostPath>,
    attach: Option<u32>,
    args: Vec<String>,
) -> (target: Result<RecordingTarget, String>)
    ensures
        match (launch, attach) {
            (Some(executable), None) => target == Ok::<RecordingTarget, String>(
                RecordingTarget::Launch { executable, args },
            ),
            (None, Some(pid)) => if args@.len() == 0 {
                target == Ok::<RecordingTarget, String>(RecordingTarget::Attach { pid })
            } else {
                target matches Err(reason) && reason@ == "--attach does not accept launch args"@
            },
            _ => target matches Err(reason) && reason@
                == "provide exactly one of --launch or --attach"@,
        },
{
    match (launch, attach) {
        (Some(executable), None) => Ok(RecordingTarget::Launch { executable, args }),
        (None, Some(pid)) => {
            if args.len() > 0 {
                return Err("--attach does not accept launch args".to_owned());
            }
            Ok(RecordingTarget::Attach { pid })
        },
        _ => Err("provide exactly one of --launch or --attach".to_owned()),
    }
}

/// A path as a document, or why there is none: only a path that is Unicode has
/// one.
pub open spec fn path_document(path: path::PathView) -> Result<json::JsonView, Seq<char>> {
    if path.raw is Some {
        Err("path contains invalid UTF-8 characters"@)
    } else {
        Ok(json::JsonView::Text(path.text))
    }
}

fn path_json(path: &HostPath) -> (document: Result<Json, String>)
    ensures
        json::json_outcome(document) == path_document(path@),
{
    if path.raw.is_some() {
        return Err("path contains invalid UTF-8 characters".to_owned());
    }
    Ok(Json::text(path.text.as_str()))
}

/// Texts as a document.
pub open spec fn texts_document(texts: Seq<Seq<char>>) -> json::JsonView {
    json::JsonView::Array(texts.map_values(|text: Seq<char>| json::JsonView::Text(text)))
}

fn texts_json(texts: &Vec<String>) -> (document: Json)
    ensures
        document@ == texts_document(path::text_views(texts@)),
{
    let mut items: Vec<Json> = Vec::new();
    let mut i: usize = 0;
    while i < texts.len()
        invariant
            i <= texts.len(),
            items.len() == i,
            forall|k: int|
                0 <= k < i ==> (#[trigger] items@[k])@ == json::JsonView::Text(texts@[k]@),
        decreases texts.len() - i,
    {
        items.push(Json::text(texts[i].as_str()));
        i = i + 1;
    }
    assert(json::item_views(items@) =~= path::text_views(texts@).map_values(
        |text: Seq<char>| json::JsonView::Text(text),
    ));
    Json::array(items)
}

/// A program and its arguments as a document, under the name of a tag.
pub open spec fn launch_document(
    tag: Seq<char>,
    executable: path::PathView,
    args: Seq<Seq<char>>,
) -> Result<json::JsonView, Seq<char>> {
    match path_document(executable) {
        Err(reason) => Err(reason),
        Ok(text) => Ok(
            json::JsonView::Object(
                seq![
                    (tag, json::JsonView::Text("launch"@)),
                    ("executable"@, text),
                    ("args"@, texts_document(args)),
                ],
            ),
        ),
    }
}

/// A process as a document, under the name of a tag.
pub open spec fn attach_document(tag: Seq<char>, pid: u32) -> json::JsonView {
    json::JsonView::Object(
        seq![
            (tag, json::JsonView::Text("attach"@)),
            ("pid"@, json::JsonView::Uint(pid as u64)),
        ],
    )
}

/// A debug target as a document.
pub open spec fn debug_target_document(target: DebugTarget) -> Result<json::JsonView, Seq<char>> {
    match target {
        DebugTarget::Dump { path } => match path_document(path@) {
            Err(reason) => Err(reason),
            Ok(text) => Ok(
                json::JsonView::Object(
                    seq![("kind"@, json::JsonView::Text("dump"@)), ("path"@, text)],
                ),
            ),
        },
        DebugTarget::Attach { pid } => Ok(attach_document("kind"@, pid)),
        DebugTarget::Launch { executable, args } => launch_document(
            "kind"@,
            executable@,
            path::text_views(args@),
        ),
    }
}

/// A recording target as a document.
pub open spec fn recording_target_document(target: RecordingTarget) -> Result<
    json::JsonView,
    Seq<char>,
> {
    match target {
        RecordingTarget::Launch { executable, args } => launch_document(
            "type"@,
            executable@,
            path::text_views(args@),
        ),
        RecordingTarget::Attach { pid } => Ok(attach_document("type"@, pid)),
    }
}

fn launch_json(tag: &str, executable: &HostPath, args: &Vec<String>) -> (document: Result<
    Json,
    String,
>)
    ensures
        json::json_outcome(document) == launch_document(
            tag@,
            executable@,
            path::text_views(args@),
        ),
{
    match path_json(executable) {
        Err(reason) => Err(reason),
        Ok(text) => Ok(
            Json::object3(
                tag,
                Json::text("launch"),
                "executable",
                text,
                "args",
                texts_json(args),
            ),
        ),
    }
}

fn attach_json(tag: &str, pid: u32) -> (document: Json)
    ensures
        document@ == attach_document(tag@, pid),
{
    Json::object2(tag, Json::text("attach"), "pid", Json::Uint(pid as u64))
}

/// A debug target as a document.
pub fn debug_target_json(target: &DebugTarget) -> (document: Result<Json, String>)
    ensures
        json::json_outcome(document) == debug_target_document(*target),
{
    match target {
        DebugTarget::Dump { path } => match path_json(path) {
            Err(reason) => Err(reason),
            Ok(text) => Ok(Json::object2("kind", Json::text("dump"), "path", text)),
        },
        DebugTarget::Attach { pid } => Ok(attach_json("kind", *pid)),
        DebugTarget::Launch { executable, args } => launch_json("kind", executable, args),
    }
}

/// A recording target as a document.
pub fn recording_target_json(target: &RecordingTarget) -> (document: Result<Json, String>)
    ensures
        json::json_outcome(document) == recording_target_document(*target),
{
    match target {
        RecordingTarget::Launch { executable, args } => launch_json("type", executable, args),
        RecordingTarget::Attach { pid } => Ok(attach_json("type", *pid)),
    }
}

/// The parameters of a call that creates something in a project.
pub open spec fn create_params(
    project_root: path::PathView,
    target: json::JsonView,
) -> json::JsonView {
    json::JsonView::Object(
        seq![
            ("project_root"@, json::JsonView::Text(project_root.text)),
            ("target"@, target),
        ],
    )
}

/// The call that creates a debug session, or why there is none. The root of
/// the project is Unicode, unless the target is refused.
pub fn session_create_call(project_root: &HostPath, target: &DebugTarget) -> (request: Result<
    JsonRpcRequest,
    String,
>)
    requires
        debug_target_document(*target) is Ok ==> project_root@.raw is None,
    ensures
        match debug_target_document(*target) {
            Ok(document) => request matches Ok(call) && rpc::is_call(
                call,
                "debug.session.create"@,
                create_params(project_root@, document),
            ),
            Err(reason) => request matches Err(told) && told@ == reason,
        },
{
    match debug_target_json(target) {
        Err(reason) => Err(reason),
        Ok(document) => Ok(
            rpc_call(
                "debug.session.create",
                Json::object2(
                    "project_root",
                    Json::text(project_root.text.as_str()),
                    "target",
                    document,
                ),
            ),
        ),
    }
}

/// The call that starts a recording, or why there is none. The root of the
/// project is Unicode, unless the target is refused.
pub fn recording_start_call(project_root: &HostPath, target: &RecordingTarget) -> (request: Result<
    JsonRpcRequest,
    String,
>)
    requires
        recording_target_document(*target) is Ok ==> project_root@.raw is None,
    ensures
        match recording_target_document(*target) {
            Ok(document) => request matches Ok(call) && rpc::is_call(
                call,
                "recording.start"@,
                create_params(project_root@, document),
            ),
            Err(reason) => request matches Err(told) && told@ == reason,
        },
{
    match recording_target_json(target) {
        Err(reason) => Err(reason),
        Ok(document) => Ok(
            rpc_call(
                "recording.start",
                Json::object2(
                    "project_root",
                    Json::text(project_root.text.as_str()),
                    "target",
                    document,
                ),
            ),
        ),
    }
}

/// What is asked of a recording.
#[derive(Clone, Copy, Debug, PartialEq, Eq)]
pub enum RecordingCommand {
    Status,
    Stop,
    Cancel,
    Kill,
}

/// The method that a command calls.
pub open spec fn recording_method(command: RecordingCommand) -> Seq<char> {
    match command {
        RecordingCommand::Status => "recording.status"@,
        RecordingCommand::Stop => "recording.stop"@,
        RecordingCommand::Cancel => "recording.cancel"@,
        RecordingCommand::Kill => "recording.kill"@,
    }
}

/// The call that a command makes.
pub fn recording_call(command: RecordingCommand, recording_id: String) -> (request: JsonRpcRequest)
    ensures
        rpc::is_call(
            request,
            recording_method(command),
            json::JsonView::Object(seq![("recording_id"@, id_object(recording_id@))]),
        ),
{
    let method: &str = match command {
        RecordingCommand::Status => "recording.status",
        RecordingCommand::Stop => "recording.stop",
        RecordingCommand::Cancel => "recording.cancel",
        RecordingCommand::Kill => "recording.kill",
    };
    rpc_call(method, Json::object1("recording_id", id_json(recording_id)))
}

/// What is asked of the service itself.
#[derive(Debug, PartialEq, Eq)]
pub enum ServiceCommand {
    Run {
        bind: String,
        token: String,
        windows_service: bool,
        config: Option<HostPath>,
        token_file: Option<HostPath>,
    },
    Health,
    Info,
    Install { bind: String, force: bool },
    Start,
    Stop,
    Status,
    Uninstall { purge: bool },
    ApplyUpdate { source_dir: HostPath, timeout_ms: u64, no_restart: bool },
}

/// What the host does for a command.
#[derive(Debug, PartialEq, Eq)]
pub enum ServiceAction {
    /// It runs the service under the service manager.
    Dispatch { config_path: HostPath, token_file: HostPath },
    /// It prints the lines and serves.
    Serve { bind: String, token: String, lines: Vec<String> },
    /// It makes the call and prints the answer.
    Call(JsonRpcRequest),
    /// It changes or asks for what is installed and prints the result.
    Install { bind: String, force: bool },
    Start,
    Stop,
    Status,
    Uninstall { purge: bool },
    ApplyUpdate { source_dir: HostPath, restart: bool, timeout_ms: u64 },
}

/// What is printed before the service runs.
pub open spec fn listening_lines(bind: Seq<char>) -> Seq<Seq<char>> {
    seq![
        "DbgAtlas service RPC listening on http://"@ + bind + "/rpc"@,
        "DbgAtlas MCP listening on http://"@ + bind + "/mcp"@,
    ]
}

/// What the host does for a command, or why nothing.
pub open spec fn service_does(
    command: ServiceCommand,
    as_json: bool,
    action: Result<ServiceAction, String>,
) -> bool {
    match command {
        ServiceCommand::Run { bind, token, windows_service, config, token_file } => {
            if windows_service {
                match (config, token_file) {
                    (None, _) => action matches Err(reason) && reason@
                        == "--config is required with --windows-service"@,
                    (Some(_), None) => action matches Err(reason) && reason@
                        == "--token-file is required with --windows-service"@,
                    (Some(config_path), Some(file)) => action == Ok::<ServiceAction, String>(
                        ServiceAction::Dispatch { config_path, token_file: file },
                    ),
                }
            } else {
                &&& action matches Ok(ServiceAction::Serve { bind: at, token: with, lines })
                &&& at == bind
                &&& with == token
                &&& path::text_views(lines@) == if as_json {
                    seq![]
                } else {
                    listening_lines(bind@)
                }
            }
        },
        ServiceCommand::Health => action matches Ok(ServiceAction::Call(request)) && rpc::is_call(
            request,
            "service.health"@,
            json::JsonView::Object(seq![]),
        ),
        ServiceCommand::Info => action matches Ok(ServiceAction::Call(request)) && rpc::is_call(
            request,
            "service.info"@,
            json::JsonView::Object(seq![]),
        ),
        ServiceCommand::Install { bind, force } => action == Ok::<ServiceAction, String>(
            ServiceAction::Install { bind, force },
        ),
        ServiceCommand::Start => action == Ok::<ServiceAction, String>(ServiceAction::Start),
        ServiceCommand::Stop => action == Ok::<ServiceAction, String>(ServiceAction::Stop),
        ServiceCommand::Status => action == Ok::<ServiceAction, String>(ServiceAction::Status),
        ServiceCommand::Uninstall { purge } => action == Ok::<ServiceAction, String>(
            ServiceAction::Uninstall { purge },
        ),
        ServiceCommand::ApplyUpdate { source_dir, timeout_ms, no_restart } => action == Ok::<
            ServiceAction,
            String,
        >(ServiceAction::ApplyUpdate { source_dir, restart: !no_restart, timeout_ms }),
    }
}

/// What the host does for a command, or why nothing.
pub fn run_service(command: ServiceCommand, as_json: bool) -> (action: Result<
    ServiceAction,
    String,
>)
    ensures
        service_does(command, as_json, action),
{
    match command {
        ServiceCommand::Run { bind, token, windows_service, config, token_file } => {
            if windows_service {
                let config_path: HostPath = match config {
                    Some(path) => path,
                    None => return Err("--config is required with --windows-service".to_owned()),
                };
                return match token_file {
                    Some(file) => Ok(ServiceAction::Dispatch { config_path, token_file: file }),
                    None => Err("--token-file is required with --windows-service".to_owned()),
                };
            }
            let mut lines: Vec<String> = Vec::new();
            if !as_json {
                lines.push(
                    "DbgAtlas service RPC listening on http://".to_owned().concat(
                        bind.as_str(),
                    ).concat("/rpc"),
                );
                lines.push(
                    "DbgAtlas MCP listening on http://".to_owned().concat(bind.as_str()).concat(
                        "/mcp",
                    ),
                );
                assert(path::text_views(lines@) =~= listening_lines(bind@));
            } else {
                assert(path::text_views(lines@) =~= seq![]);
            }
            Ok(ServiceAction::Serve { bind, token, lines })
        },
        ServiceCommand::Health => Ok(
            ServiceAction::Call(rpc_call("service.health", Json::empty_object())),
        ),
        ServiceCommand::Info => Ok(ServiceAction::Call(rpc_call("service.info", Json::empty_object()))),
        ServiceCommand::Install { bind, force } => Ok(ServiceAction::Install { bind, force }),
        ServiceCommand::Start => Ok(ServiceAction::Start),
        ServiceCommand::Stop => Ok(ServiceAction::Stop),
        ServiceCommand::Status => Ok(ServiceAction::Status),
        ServiceCommand::Uninstall { purge } => Ok(ServiceAction::Uninstall { purge }),
        ServiceCommand::ApplyUpdate { source_dir, timeout_ms, no_restart } => Ok(
            ServiceAction::ApplyUpdate { source_dir, restart: !no_restart, timeout_ms },
        ),
    }
}

/// What is printed of an answer.
#[derive(Debug, PartialEq, Eq)]
pub enum Printed {
    /// All of it.
    Response(JsonRpcResponse),
    /// Its result.
    Value(Json),
}

/// What is printed of an answer. Without `as_json` a refusal is an error.
pub fn print_rpc_response(response: JsonRpcResponse, as_json: bool) -> (printed: Result<
    Printed,
    String,
>)
    ensures
        if as_json {
            printed == Ok::<Printed, String>(Printed::Response(response))
        } else {
            match response.error {
                Some(error) => printed matches Err(reason) && reason@ == error.message@ + " ("@
                    + text::signed_decimal(error.code as int) + ")"@,
                None => printed matches Ok(Printed::Value(value)) && match response.result {
                    Some(result) => value == result,
                    None => value@ == json::JsonView::Null,
                },
            }
        },
{
    if as_json {
        return Ok(Printed::Response(response));
    }
    if let Some(error) = response.error {
        return Err(
            error.message.concat(" (").concat(
                text::signed_decimal_text(error.code).as_str(),
            ).concat(")"),
        );
    }
    match response.result {
        Some(result) => Ok(Printed::Value(result)),
        None => Ok(Printed::Value(Json::Null)),
    }
}

/// A document as it is printed.
pub fn print_json(value: &Json) -> (printed: Result<String, String>)
    ensures
        json::text_outcome(printed) == json::pretty_text(value@),
{
    write_pretty(value)
}

/// Where a service listens, and what it takes to talk to it.
#[derive(Debug, PartialEq, Eq)]
pub struct ClientConnection {
    pub endpoint: String,
    pub token: String,
}

/// The connection to use. What the options name comes first, then what is
/// installed, then what a service in development has. What is installed does
/// not matter where the options name both.
pub fn resolve_client_connection(
    endpoint: Option<String>,
    token: Option<String>,
    installed: Result<Option<ClientConnection>, String>,
    development: ClientConnection,
) -> (connection: Result<ClientConnection, String>)
    ensures
        match (endpoint, token) {
            (Some(at), Some(with)) => connection == Ok::<ClientConnection, String>(
                ClientConnection { endpoint: at, token: with },
            ),
            _ => match installed {
                Err(reason) => connection == Err::<ClientConnection, String>(reason),
                Ok(known) => {
                    &&& connection matches Ok(found)
                    &&& found.endpoint == match (endpoint, known) {
                        (Some(at), _) => at,
                        (None, Some(config)) => config.endpoint,
                        (None, None) => development.endpoint,
                    }
                    &&& found.token == match (token, known) {
                        (Some(with), _) => with,
                        (None, Some(config)) => config.token,
                        (None, None) => development.token,
                    }
                },
            },
        },
{
    match (endpoint, token) {
        (Some(at), Some(with)) => Ok(ClientConnection { endpoint: at, token: with }),
        (at, with) => {
            let fallback: ClientConnection = match installed {
                Err(reason) => return Err(reason),
                Ok(Some(config)) => config,
                Ok(None) => development,
            };
            let endpoint: String = match at {
                Some(at) => at,
                None => fallback.endpoint,
            };
            let token: String = match with {
                Some(with) => with,
                None => fallback.token,
            };
            Ok(ClientConnection { endpoint, token })
        },
    }
}

/// What became of an installed service.
#[derive(Debug)]
pub struct ServiceCommandResult {
    pub service_name: String,
    pub status: String,
    pub endpoint: Option<String>,
    pub installed_binary: HostPath,
    pub config_path: HostPath,
    pub token_file: HostPath,
    pub log_dir: HostPath,
}

/// The lines on where a service listens.
pub open spec fn endpoint_lines(endpoint: Option<String>) -> Seq<Seq<char>> {
    match endpoint {
        Some(at) => seq![
            "rpc endpoint: http://"@ + at@ + "/rpc"@,
            "mcp endpoint: http://"@ + at@ + "/mcp"@,
        ],
        None => seq![],
    }
}

/// What is printed of an installed service.
pub open spec fn result_lines(result: ServiceCommandResult) -> Seq<Seq<char>> {
    seq!["service: "@ + result.service_name@, "status: "@ + result.status@] + endpoint_lines(
        result.endpoint,
    ) + seq![
        "binary: "@ + result.installed_binary@.text,
        "config: "@ + result.config_path@.text,
        "token file: "@ + result.token_file@.text,
        "log dir: "@ + result.log_dir@.text,
    ]
}

/// What is printed of an installed service.
pub fn print_service_command_result(result: &ServiceCommandResult) -> (lines: Vec<String>)
    ensures
        path::text_views(lines@) == result_lines(*result),
{
    let mut lines: Vec<String> = Vec::new();
    lines.push("service: ".to_owned().concat(result.service_name.as_str()));
    lines.push("status: ".to_owned().concat(result.status.as_str()));
    if let Some(endpoint) = &result.endpoint {
        lines.push("rpc endpoint: http://".to_owned().concat(endpoint.as_str()).concat("/rpc"));
        lines.push("mcp endpoint: http://".to_owned().concat(endpoint.as_str()).concat("/mcp"));
    }
    lines.push("binary: ".to_owned().concat(result.installed_binary.text.as_str()));
    lines.push("config: ".to_owned().concat(result.config_path.text.as_str()));
    lines.push("token file: ".to_owned().concat(result.token_file.text.as_str()));
    lines.push("log dir: ".to_owned().concat(result.log_dir.text.as_str()));
    assert(path::text_views(lines@) =~= result_lines(*result));
    lines
}

/// What is printed of a new workspace, as a document. Its paths are Unicode.
pub fn init_document(root: &HostPath, manifest: &HostPath, workspace_id: &Id) -> (document: Json)
    requires
        root@.raw is None,
        manifest@.raw is None,
    ensures
        document@ == json::JsonView::Object(
            seq![
                ("root"@, json::JsonView::Text(root@.text)),
                ("manifest"@, json::JsonView::Text(manifest@.text)),
                ("workspace_id"@, json::JsonView::Text(workspace_id@)),
            ],
        ),
{
    Json::object3(
        "root",
        Json::text(root.text.as_str()),
        "manifest",
        Json::text(manifest.text.as_str()),
        "workspace_id",
        Json::text(workspace_id.as_str()),
    )
}

/// What is printed of a new workspace.
pub fn init_lines(root: &HostPath, manifest: &HostPath) -> (lines: Vec<String>)
    ensures
        path::text_views(lines@) == seq![
            "initialized workspace: "@ + root@.text,
            "manifest: "@ + manifest@.text,
        ],
{
    let lines: Vec<String> = vec![
        "initialized workspace: ".to_owned().concat(root.text.as_str()),
        "manifest: ".to_owned().concat(manifest.text.as_str()),
    ];
    assert(path::text_views(lines@) =~= seq![
        "initialized workspace: "@ + root@.text,
        "manifest: "@ + manifest@.text,
    ]);
    lines
}

/// Whether something is there, as text.
pub open spec fn truth(value: bool) -> Seq<char> {
    if value {
        "true"@
    } else {
        "false"@
    }
}

fn truth_text(value: bool) -> (text: &'static str)
    ensures
        text@ == truth(value),
{
    if value {
        "true"
    } else {
        "false"
    }
}

/// What is printed of a workspace.
pub open spec fn info_text(info: WorkspaceInfo) -> Seq<Seq<char>> {
    seq![
        "workspace: "@ + info.root@.text,
        "workspace id: "@ + info.manifest.workspace_id@,
        "schema version: "@ + text::decimal(info.manifest.schema_version as nat),
        "artifacts dir: "@ + truth(info.has_artifacts_dir),
        "analysis dir: "@ + truth(info.has_analysis_dir),
        "inputs dir: "@ + truth(info.has_inputs_dir),
    ]
}

/// What is printed of a workspace.
pub fn info_lines(info: &WorkspaceInfo) -> (lines: Vec<String>)
    ensures
        path::text_views(lines@) == info_text(*info),
{
    let version: String = text::decimal_text(info.manifest.schema_version as u64);
    let lines: Vec<String> = vec![
        "workspace: ".to_owned().concat(info.root.text.as_str()),
        "workspace id: ".to_owned().concat(info.manifest.workspace_id.as_str()),
        "schema version: ".to_owned().concat(version.as_str()),
        "artifacts dir: ".to_owned().concat(truth_text(info.has_artifacts_dir)),
        "analysis dir: ".to_owned().concat(truth_text(info.has_analysis_dir)),
        "inputs dir: ".to_owned().concat(truth_text(info.has_inputs_dir)),
    ];
    assert(path::text_views(lines@) =~= info_text(*info));
    lines
}

/// What is printed of the logs of a workspace.
pub open spec fn facts_text(root: path::PathView, facts: WorkspaceFacts) -> Seq<Seq<char>> {
    seq![
        "workspace: "@ + root.text,
        "artifacts: "@ + text::decimal(facts.artifacts@.len()),
        "operations: "@ + text::decimal(facts.operations@.len()),
        "command audit records: "@ + text::decimal(facts.command_audit@.len()),
    ]
}

/// What is printed of the logs of a workspace.
pub fn facts_lines(root: &HostPath, facts: &WorkspaceFacts) -> (lines: Vec<String>)
    ensures
        path::text_views(lines@) == facts_text(root@, *facts),
{
    let artifacts: String = text::decimal_text(facts.artifacts.len() as u64);
    let operations: String = text::decimal_text(facts.operations.len() as u64);
    let audit: String = text::decimal_text(facts.command_audit.len() as u64);
    let lines: Vec<String> = vec![
        "workspace: ".to_owned().concat(root.text.as_str()),
        "artifacts: ".to_owned().concat(artifacts.as_str()),
        "operations: ".to_owned().concat(operations.as_str()),
        "command audit records: ".to_owned().concat(audit.as_str()),
    ];
    assert(path::text_views(lines@) =~= facts_text(root@, *facts));
    lines
}

/// What is printed of the version of the native interface.
pub fn native_version_line(version: &NativeVersion) -> (line: String)
    ensures
        line@ == "native ABI version: "@ + text::decimal(version.abi_major as nat) + "."@
            + text::decimal(version.abi_minor as nat) + "."@ + text::decimal(
            version.abi_patch as nat,
        ),
{
    "native ABI version: ".to_owned().concat(
        text::decimal_text(version.abi_major as u64).as_str(),
    ).concat(".").concat(text::decimal_text(version.abi_minor as u64).as_str()).concat(".").concat(
        text::decimal_text(version.abi_patch as u64).as_str(),
    )
}

/// Every command on a debug session calls a method that is also a tool of the
/// service.
pub proof fn law_debug_commands_call_service_tools(command: DebugCommand)
    ensures
        mcp::is_service_tool(debug_call_of(command).0),
{
}

} // verus!
