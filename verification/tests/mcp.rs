use dbgatlas::json::Json;
use dbgatlas::mcp::{
    finish_tool_call, respond, service_response_result, tool_descriptors, tool_reply, McpError,
    McpRequest, McpServer, RequestStep, ToolCallOutput, ToolCallParams, ToolStep,
};
use dbgatlas::rpc::{JsonRpcError, JsonRpcResponse};

fn server() -> McpServer<()> {
    McpServer::with_host(())
}

fn request(id: Option<Json>, method: &str, params: Option<Json>) -> McpRequest {
    McpRequest {
        jsonrpc: "2.0".to_string(),
        id,
        method: method.to_string(),
        params,
    }
}

fn done(method: &str) -> Result<Json, String> {
    match server().handle_request(request(Some(Json::Uint(1)), method, None)) {
        RequestStep::Done(Some(response)) => {
            assert_eq!(response.jsonrpc, "2.0");
            assert_eq!(response.id, Some(Json::Uint(1)));
            match (response.result, response.error) {
                (Some(result), None) => Ok(result),
                (None, Some(error)) => {
                    assert_eq!(error.code, -32000);
                    Err(error.message)
                }
                other => panic!("unexpected response {other:?}"),
            }
        }
        other => panic!("unexpected step {other:?}"),
    }
}

fn text_of<'a>(json: &'a Json, name: &str) -> &'a str {
    match json.get(name) {
        Some(Json::Text(text)) => text,
        other => panic!("no text at {name}: {other:?}"),
    }
}

#[test]
fn stdio_notifications_do_not_write_responses() {
    let step = server().handle_request(request(
        None,
        "notifications/initialized",
        Some(Json::empty_object()),
    ));
    assert_eq!(step, RequestStep::Done(None));
    let step = server().handle_request(request(None, "no/such", None));
    assert_eq!(step, RequestStep::Done(None));
}

#[test]
fn tool_execution_errors_are_marked_as_mcp_tool_errors() {
    let arguments = || {
        Json::object2(
            "session_id",
            Json::object1("id", Json::text("missing-session")),
            "command",
            Json::text(".echo nope"),
        )
    };
    let params = Json::object2("name", Json::text("debug.eval"), "arguments", arguments());
    let id = match server().handle_request(request(
        Some(Json::Uint(1)),
        "tools/call",
        Some(params.clone()),
    )) {
        RequestStep::CallTool { id, params: given } => {
            assert_eq!(given, params);
            id
        }
        other => panic!("unexpected step {other:?}"),
    };
    let step = server().call_named_tool(Ok(ToolCallParams {
        name: "debug.eval".to_string(),
        arguments: Some(arguments()),
    }));
    match step {
        ToolStep::CallService(call) => {
            assert_eq!(call.jsonrpc, "2.0");
            assert_eq!(call.id, Some(Json::Uint(1)));
            assert_eq!(call.method, "debug.eval");
            assert_eq!(call.params, Some(arguments()));
        }
        other => panic!("unexpected step {other:?}"),
    }
    let output = service_response_result(JsonRpcResponse {
        result: None,
        error: Some(JsonRpcError {
            code: -32004,
            message: "session not found: missing-session".to_string(),
        }),
    });
    let response = finish_tool_call(id, Ok(output));

    let result = response.unwrap().result.unwrap();
    assert_eq!(result.get("isError"), Some(&Json::Bool(true)));
    match result.get("content") {
        Some(Json::Array(content)) => {
            assert_eq!(text_of(&content[0], "type"), "text");
            let text = text_of(&content[0], "text");
            assert!(text.contains("session not found"));
            assert_eq!(
                text,
                "{\n  \"error\": {\n    \"code\": -32004,\n    \"message\": \"session not found: missing-session\"\n  }\n}"
            );
        }
        other => panic!("unexpected content {other:?}"),
    }
}

#[test]
fn initialize_names_the_server() {
    let result = done("initialize").unwrap();
    assert_eq!(text_of(&result, "protocolVersion"), "2024-11-05");
    let info = result.get("serverInfo").unwrap();
    assert_eq!(text_of(info, "name"), "dbgatlas-mcp");
    assert_eq!(text_of(info, "version"), "0.1.0");
    assert_eq!(
        result.get("capabilities"),
        Some(&Json::object1("tools", Json::empty_object()))
    );
    assert_eq!(done("notifications/initialized").unwrap(), Json::Null);
}

#[test]
fn unknown_methods_are_refused() {
    assert_eq!(done("ping").unwrap_err(), "unknown MCP method `ping`");
}

#[test]
fn listed_tools_can_be_called_and_no_others() {
    let tools = match done("tools/list").unwrap().get("tools") {
        Some(Json::Array(tools)) => tools.iter().map(Json::clone).collect::<Vec<Json>>(),
        other => panic!("no tools: {other:?}"),
    };
    assert_eq!(tools, tool_descriptors());
    let names: Vec<&str> = tools.iter().map(|tool| text_of(tool, "name")).collect();
    assert_eq!(
        names,
        [
            "service.health",
            "service.info",
            "debug.session.create",
            "debug.eval",
            "debug.modules",
            "debug.threads",
            "debug.stack",
            "debug.add_symbols",
            "debug.read_memory",
            "debug.session.close",
            "debug.session.kill",
            "operation.get",
            "operation.cancel",
            "operation.stream",
            "workspace.facts",
        ]
    );
    for name in names {
        let step = server().call_tool(name, Json::empty_object());
        assert!(!matches!(step, ToolStep::Refuse(_)), "{}", name);
    }
    match server().call_tool("debug.launch", Json::empty_object()) {
        ToolStep::Refuse(error) => {
            assert_eq!(error.message(), "unknown DbgAtlas tool `debug.launch`");
        }
        other => panic!("unexpected step {other:?}"),
    }
}

#[test]
fn tools_describe_their_arguments() {
    let tools = tool_descriptors();
    let schema = |name: &str| {
        tools
            .iter()
            .find(|tool| text_of(tool, "name") == name)
            .unwrap()
            .get("inputSchema")
            .unwrap()
            .clone()
    };
    assert_eq!(schema("service.info"), Json::empty_object());
    assert_eq!(
        schema("debug.stack"),
        Json::object3(
            "type",
            Json::text("object"),
            "properties",
            Json::object1("session_id", Json::object1("type", Json::text("object"))),
            "required",
            Json::array(vec![Json::text("session_id")]),
        )
    );
    let memory = schema("debug.read_memory");
    assert_eq!(
        memory.get("required"),
        Some(&Json::array(vec![
            Json::text("session_id"),
            Json::text("address"),
            Json::text("length"),
        ]))
    );
    assert_eq!(
        memory.get("properties").unwrap().get("address"),
        Some(&Json::empty_object())
    );
    assert_eq!(
        text_of(&tools[14], "description"),
        "Read workspace facts: artifact registry, operations, and command audit."
    );
}

#[test]
fn service_tools_take_objects() {
    match server().call_tool("debug.eval", Json::Null) {
        ToolStep::Refuse(error) => {
            assert_eq!(error, McpError::InvalidToolArguments);
            assert_eq!(error.message(), "tool arguments must be a JSON object");
        }
        other => panic!("unexpected step {other:?}"),
    }
    match server().call_tool("workspace.facts", Json::Null) {
        ToolStep::ReadFacts { arguments } => assert_eq!(arguments, Json::Null),
        other => panic!("unexpected step {other:?}"),
    }
}

#[test]
fn a_call_without_arguments_gets_an_empty_object() {
    let step = server().call_named_tool(Ok(ToolCallParams {
        name: "service.health".to_string(),
        arguments: None,
    }));
    match step {
        ToolStep::CallService(call) => assert_eq!(call.params, Some(Json::empty_object())),
        other => panic!("unexpected step {other:?}"),
    }
    let step = server().call_named_tool(Err("missing field `name`".to_string()));
    assert_eq!(
        step,
        ToolStep::Refuse(McpError::Json("missing field `name`".to_string()))
    );
    match server().handle_request(request(None, "tools/call", None)) {
        RequestStep::CallTool { id, params } => {
            assert_eq!(id, None);
            assert_eq!(params, Json::empty_object());
        }
        other => panic!("unexpected step {other:?}"),
    }
}

#[test]
fn answers_of_the_service_become_values() {
    let output = service_response_result(JsonRpcResponse {
        result: Some(Json::Bool(true)),
        error: None,
    });
    assert_eq!(
        output,
        ToolCallOutput {
            value: Json::Bool(true),
            is_error: false,
        }
    );
    let output = service_response_result(JsonRpcResponse {
        result: None,
        error: None,
    });
    assert_eq!(output.value, Json::Null);
    assert!(!output.is_error);
}

#[test]
fn refused_calls_are_answered_with_errors() {
    let refused = Err(McpError::Workspace("no workspace".to_string()));
    let response = finish_tool_call(Some(Json::text("a")), refused).unwrap();
    assert_eq!(response.id, Some(Json::text("a")));
    assert_eq!(response.error.unwrap().message, "no workspace");
    assert!(finish_tool_call(None, Err(McpError::InvalidToolArguments)).is_none());
    assert!(respond(None, Ok(Json::Null)).is_none());
    assert_eq!(
        tool_reply(Err("why".to_string()), false).unwrap_err(),
        McpError::Json("why".to_string())
    );
    let reply = tool_reply(Ok("x".to_string()), false).unwrap();
    assert_eq!(reply.get("isError"), Some(&Json::Bool(false)));
}

#[test]
fn a_server_needs_its_service() {
    let error = McpServer::<u8>::with_process_workers(Err("no worker".to_string())).unwrap_err();
    assert_eq!(error, McpError::Service("no worker".to_string()));
    assert_eq!(error.message(), "no worker");
    assert_eq!(McpServer::with_process_workers(Ok(7u8)).unwrap().host, 7);
    assert_eq!(McpError::Io("gone".to_string()).message(), "gone");
}
