use dbgatlas::debug::DebugTarget;
use dbgatlas::json::Json;
use dbgatlas::model::{Id, OperationRef, SessionRef};
use dbgatlas::path::{HostPath, JoinedPath};
use dbgatlas::worker_protocol::{
    decode_jsonl, encode_jsonl, LineError, LineReader, LineStep, ReverseCoreFunctionResult,
    ReverseFunctionLookupResult, WorkerArtifactWrite, WorkerEnvelope, WorkerProtocolError,
    WorkerRequest, WorkerResponse, MAX_LINE_BYTES, WORKER_PROTOCOL_VERSION,
};
use serde_json::Value;

fn session() -> SessionRef {
    SessionRef::new(Id::new("session-001").unwrap())
}

fn operation(id: &str) -> OperationRef {
    OperationRef::new(Id::new(id).unwrap())
}

fn object(fields: Vec<(&str, Value)>) -> Value {
    Value::Object(
        fields
            .into_iter()
            .map(|(name, value)| (name.to_string(), value))
            .collect::<serde_json::Map<String, Value>>(),
    )
}

fn reference(id: &Id) -> Value {
    object(vec![("id", Value::from(id.as_str()))])
}

fn id_of(value: &Value) -> Id {
    Id::new(value["id"].as_str().unwrap()).unwrap()
}

fn path_of(value: &Value) -> HostPath {
    HostPath::new(value.as_str().unwrap())
}

fn document(json: &Json) -> Value {
    match json {
        Json::Null => Value::Null,
        Json::Bool(value) => Value::from(*value),
        Json::Int(value) => Value::from(*value),
        Json::Uint(value) => Value::from(*value),
        Json::Real(text) => text.parse().map(Value::Number).unwrap(),
        Json::Text(text) => Value::from(text.as_str()),
        Json::Array(items) => items.iter().map(document).collect(),
        Json::Object(fields) => object(
            fields
                .iter()
                .map(|(name, value)| (name.as_str(), document(value)))
                .collect(),
        ),
    }
}

fn json(value: &Value) -> Json {
    match value {
        Value::Null => Json::Null,
        Value::Bool(value) => Json::Bool(*value),
        Value::Number(number) => Json::Uint(number.as_u64().unwrap()),
        Value::String(text) => Json::text(text),
        Value::Array(items) => Json::array(items.iter().map(json).collect()),
        Value::Object(fields) => Json::object(
            fields
                .iter()
                .map(|(name, value)| (name.clone(), json(value)))
                .collect(),
        ),
    }
}

fn write_request(request: &WorkerRequest) -> Value {
    let session = ("session_id", reference(&request.session_id().id));
    match request {
        WorkerRequest::CloseSession { .. } => {
            object(vec![("method", Value::from("close_session")), session])
        }
        WorkerRequest::CloseReverseSession { .. } => object(vec![
            ("method", Value::from("close_reverse_session")),
            session,
        ]),
        WorkerRequest::CancelOperation { operation_id, .. } => object(vec![
            ("method", Value::from("cancel_operation")),
            session,
            ("operation_id", reference(&operation_id.id)),
        ]),
        WorkerRequest::ReadMemory {
            operation_id,
            address,
            length,
            artifact_dir,
            ..
        } => object(vec![
            ("method", Value::from("read_memory")),
            session,
            ("operation_id", reference(&operation_id.id)),
            ("address", Value::from(*address)),
            ("length", Value::from(*length)),
            ("artifact_dir", Value::from(artifact_dir.text.as_str())),
        ]),
        WorkerRequest::OpenReverseSession {
            ida_install_dir,
            database_path,
            artifact_dir,
            ..
        } => object(vec![
            ("method", Value::from("open_reverse_session")),
            session,
            ("ida_install_dir", Value::from(ida_install_dir.text.as_str())),
            ("database_path", Value::from(database_path.text.as_str())),
            ("artifact_dir", Value::from(artifact_dir.text.as_str())),
        ]),
        WorkerRequest::LookupReverseFunction {
            operation_id,
            runtime_address,
            runtime_module_base,
            ida_image_base,
            artifact_dir,
            ..
        } => object(vec![
            ("method", Value::from("lookup_reverse_function")),
            session,
            ("operation_id", reference(&operation_id.id)),
            ("runtime_address", Value::from(*runtime_address)),
            ("runtime_module_base", Value::from(*runtime_module_base)),
            ("ida_image_base", Value::from(*ida_image_base)),
            ("artifact_dir", Value::from(artifact_dir.text.as_str())),
        ]),
        WorkerRequest::ReverseCoreFunction {
            operation_id,
            function,
            arguments,
            artifact_dir,
            ..
        } => object(vec![
            ("method", Value::from("reverse_core_function")),
            session,
            ("operation_id", reference(&operation_id.id)),
            ("function", Value::from(function.as_str())),
            ("arguments", document(arguments)),
            ("artifact_dir", Value::from(artifact_dir.text.as_str())),
        ]),
        other => panic!("no document for {other:?}"),
    }
}

fn read_request(value: &Value) -> WorkerRequest {
    let session_id = SessionRef::new(id_of(&value["session_id"]));
    let operation_id = || OperationRef::new(id_of(&value["operation_id"]));
    let artifact_dir = || path_of(&value["artifact_dir"]);
    let number = |name: &str| value[name].as_u64().unwrap();
    match value["method"].as_str().unwrap() {
        "close_session" => WorkerRequest::CloseSession { session_id },
        "close_reverse_session" => WorkerRequest::CloseReverseSession { session_id },
        "cancel_operation" => WorkerRequest::CancelOperation {
            session_id,
            operation_id: operation_id(),
        },
        "read_memory" => WorkerRequest::ReadMemory {
            session_id,
            operation_id: operation_id(),
            address: number("address"),
            length: number("length"),
            artifact_dir: artifact_dir(),
        },
        "open_reverse_session" => WorkerRequest::OpenReverseSession {
            session_id,
            ida_install_dir: path_of(&value["ida_install_dir"]),
            database_path: path_of(&value["database_path"]),
            artifact_dir: artifact_dir(),
        },
        "lookup_reverse_function" => WorkerRequest::LookupReverseFunction {
            session_id,
            operation_id: operation_id(),
            runtime_address: number("runtime_address"),
            runtime_module_base: number("runtime_module_base"),
            ida_image_base: number("ida_image_base"),
            artifact_dir: artifact_dir(),
        },
        "reverse_core_function" => WorkerRequest::ReverseCoreFunction {
            session_id,
            operation_id: operation_id(),
            function: value["function"].as_str().unwrap().to_string(),
            arguments: json(&value["arguments"]),
            artifact_dir: artifact_dir(),
        },
        other => panic!("unknown method {other}"),
    }
}

fn write_response(response: &WorkerResponse) -> Value {
    match response {
        WorkerResponse::ReverseFunctionLookup { result, writes } => {
            assert!(writes.is_empty());
            object(vec![
                ("status", Value::from("reverse_function_lookup")),
                (
                    "result",
                    object(vec![
                        ("runtime_address", Value::from(result.runtime_address)),
                        (
                            "runtime_module_base",
                            Value::from(result.runtime_module_base),
                        ),
                        ("rva", Value::from(result.rva)),
                        ("ida_image_base", Value::from(result.ida_image_base)),
                        ("ida_ea", Value::from(result.ida_ea)),
                        ("function_start", Value::from(result.function_start)),
                        ("function_end", Value::from(result.function_end)),
                        ("function_name", Value::from(result.function_name.as_str())),
                        ("found", Value::from(result.found)),
                    ]),
                ),
                ("writes", Value::Array(Vec::new())),
            ])
        }
        WorkerResponse::ReverseCoreFunction { result, writes } => {
            assert!(writes.is_empty() && result.warnings.is_empty());
            object(vec![
                ("status", Value::from("reverse_core_function")),
                (
                    "result",
                    object(vec![
                        ("function", Value::from(result.function.as_str())),
                        ("result", document(&result.result)),
                        ("warnings", Value::Array(Vec::new())),
                    ]),
                ),
                ("writes", Value::Array(Vec::new())),
            ])
        }
        other => panic!("no document for {other:?}"),
    }
}

fn read_response(value: &Value) -> WorkerResponse {
    let result = &value["result"];
    let number = |name: &str| result[name].as_u64().unwrap();
    match value["status"].as_str().unwrap() {
        "reverse_function_lookup" => WorkerResponse::ReverseFunctionLookup {
            result: ReverseFunctionLookupResult {
                runtime_address: number("runtime_address"),
                runtime_module_base: number("runtime_module_base"),
                rva: number("rva"),
                ida_image_base: number("ida_image_base"),
                ida_ea: number("ida_ea"),
                function_start: number("function_start"),
                function_end: number("function_end"),
                function_name: result["function_name"].as_str().unwrap().to_string(),
                found: result["found"].as_bool().unwrap(),
            },
            writes: Vec::new(),
        },
        "reverse_core_function" => WorkerResponse::ReverseCoreFunction {
            result: ReverseCoreFunctionResult {
                function: result["function"].as_str().unwrap().to_string(),
                result: json(&result["result"]),
                warnings: Vec::new(),
            },
            writes: Vec::new(),
        },
        other => panic!("unknown status {other}"),
    }
}

fn encode<T>(envelope: &WorkerEnvelope<T>, write: fn(&T) -> Value) -> String {
    let value = object(vec![
        ("version", Value::from(envelope.version)),
        ("request_id", Value::from(envelope.request_id.as_str())),
        ("message", write(&envelope.message)),
    ]);
    encode_jsonl(serde_json::to_string(&value).map_err(|error| error.to_string())).unwrap()
}

fn decode<T>(
    line: &str,
    read: fn(&Value) -> T,
) -> Result<WorkerEnvelope<T>, WorkerProtocolError> {
    decode_jsonl(
        serde_json::from_str::<Value>(line)
            .map(|value| WorkerEnvelope {
                version: value["version"].as_u64().unwrap() as u32,
                request_id: value["request_id"].as_str().unwrap().to_string(),
                message: read(&value["message"]),
            })
            .map_err(|error| error.to_string()),
    )
}

fn read_line(bytes: &[u8]) -> Result<(String, usize), LineError> {
    let mut reader = LineReader::new();
    let mut at = 0;
    loop {
        match reader.read_jsonl_line(bytes.get(at).copied()) {
            LineStep::More(more) => reader = more,
            LineStep::Line(line) => return Ok((line, at + 1)),
            LineStep::Failed(error) => return Err(error),
        }
        at += 1;
    }
}

#[test]
fn request_round_trips_as_jsonl() {
    let request = WorkerEnvelope::new(
        "req-001",
        WorkerRequest::CloseSession {
            session_id: session(),
        },
    );

    let encoded = encode(&request, write_request);
    assert!(encoded.ends_with('\n'));
    assert_eq!(read_line(encoded.as_bytes()).unwrap().0, encoded);
    assert_eq!(decode(&encoded, read_request).unwrap(), request);
}

#[test]
fn read_memory_round_trips_as_jsonl() {
    let request = WorkerEnvelope::new(
        "req-003",
        WorkerRequest::ReadMemory {
            session_id: session(),
            operation_id: operation("op-001"),
            address: 0x1000,
            length: 32,
            artifact_dir: HostPath::new(r"C:\case\dbgatlas\artifacts\sessions\session-001"),
        },
    );

    let encoded = encode(&request, write_request);
    assert_eq!(decode(&encoded, read_request).unwrap(), request);
}

#[test]
fn reverse_requests_round_trip_as_jsonl() {
    let artifact_dir =
        || HostPath::new(r"C:\case\dbgatlas\artifacts\reverse_sessions\session-001");
    let open = WorkerEnvelope::new(
        "req-rev-open",
        WorkerRequest::OpenReverseSession {
            session_id: session(),
            ida_install_dir: HostPath::new(r"C:\Program Files\IDA Professional 9.3"),
            database_path: HostPath::new(r"C:\case\sample.i64"),
            artifact_dir: artifact_dir(),
        },
    );
    let lookup = WorkerEnvelope::new(
        "req-rev-lookup",
        WorkerRequest::LookupReverseFunction {
            session_id: session(),
            operation_id: operation("op-001"),
            runtime_address: 0x180001234,
            runtime_module_base: 0x180000000,
            ida_image_base: 0x140000000,
            artifact_dir: artifact_dir(),
        },
    );
    let close = WorkerEnvelope::new(
        "req-rev-close",
        WorkerRequest::CloseReverseSession {
            session_id: session(),
        },
    );

    for request in [open, lookup, close] {
        let encoded = encode(&request, write_request);
        assert_eq!(decode(&encoded, read_request).unwrap(), request);
    }
}

#[test]
fn reverse_core_request_round_trips_as_jsonl() {
    let item = Json::object3(
        "addr",
        Json::text("0x140001000"),
        "kind",
        Json::text("function"),
        "new_name",
        Json::text("dbgatlas_main"),
    );
    let request = WorkerEnvelope::new(
        "req-rev-core",
        WorkerRequest::ReverseCoreFunction {
            session_id: session(),
            operation_id: operation("op-001"),
            function: "rename".to_string(),
            arguments: Json::object1("items", Json::array(vec![item])),
            artifact_dir: HostPath::new(
                r"C:\case\dbgatlas\artifacts\reverse_sessions\session-001",
            ),
        },
    );

    let encoded = encode(&request, write_request);
    assert_eq!(decode(&encoded, read_request).unwrap(), request);
}

#[test]
fn reverse_lookup_response_round_trips_as_jsonl() {
    let response = WorkerEnvelope::new(
        "req-rev-lookup",
        WorkerResponse::ReverseFunctionLookup {
            result: ReverseFunctionLookupResult {
                runtime_address: 0x180001234,
                runtime_module_base: 0x180000000,
                rva: 0x1234,
                ida_image_base: 0x140000000,
                ida_ea: 0x140001234,
                function_start: 0x140001200,
                function_end: 0x140001300,
                function_name: "sub_140001200".to_string(),
                found: true,
            },
            writes: Vec::new(),
        },
    );

    let encoded = encode(&response, write_response);
    assert_eq!(decode(&encoded, read_response).unwrap(), response);
}

#[test]
fn reverse_core_response_round_trips_as_jsonl() {
    let item = Json::object3(
        "module",
        Json::text("KERNEL32.dll"),
        "name",
        Json::text("CreateFileW"),
        "ordinal",
        Json::Null,
    );
    let response = WorkerEnvelope::new(
        "req-rev-core",
        WorkerResponse::ReverseCoreFunction {
            result: ReverseCoreFunctionResult {
                function: "imports".to_string(),
                result: Json::object3(
                    "count",
                    Json::Uint(1),
                    "items",
                    Json::array(vec![item]),
                    "offset",
                    Json::Uint(0),
                ),
                warnings: Vec::new(),
            },
            writes: Vec::new(),
        },
    );

    let encoded = encode(&response, write_response);
    assert_eq!(decode(&encoded, read_response).unwrap(), response);
}

#[test]
fn cancel_operation_round_trips_as_jsonl() {
    let request = WorkerEnvelope::new(
        "req-002",
        WorkerRequest::CancelOperation {
            session_id: session(),
            operation_id: operation("op-001"),
        },
    );

    let encoded = encode(&request, write_request);
    assert_eq!(decode(&encoded, read_request).unwrap(), request);
}

#[test]
fn request_session_id_helper_reads_every_variant() {
    let artifacts = || HostPath::new("artifacts");
    let requests = vec![
        WorkerRequest::StartDebugSession {
            session_id: session(),
            target: DebugTarget::Dump {
                path: HostPath::new("sample.dmp"),
            },
            artifact_dir: artifacts(),
        },
        WorkerRequest::EvalDebugCommand {
            session_id: session(),
            operation_id: operation("op-001"),
            command: ".echo hi".to_string(),
            artifact_dir: artifacts(),
        },
        WorkerRequest::AddSymbols {
            session_id: session(),
            operation_id: operation("op-001"),
            symbol_path: "srv*".to_string(),
            reload: false,
            artifact_dir: artifacts(),
        },
        WorkerRequest::ReadMemory {
            session_id: session(),
            operation_id: operation("op-001"),
            address: 0x1000,
            length: 16,
            artifact_dir: artifacts(),
        },
        WorkerRequest::OpenReverseSession {
            session_id: session(),
            ida_install_dir: HostPath::new("ida"),
            database_path: HostPath::new("sample.i64"),
            artifact_dir: artifacts(),
        },
        WorkerRequest::LookupReverseFunction {
            session_id: session(),
            operation_id: operation("op-001"),
            runtime_address: 0x180001000,
            runtime_module_base: 0x180000000,
            ida_image_base: 0x140000000,
            artifact_dir: artifacts(),
        },
        WorkerRequest::ReverseCoreFunction {
            session_id: session(),
            operation_id: operation("op-001"),
            function: "list_funcs".to_string(),
            arguments: Json::empty_object(),
            artifact_dir: artifacts(),
        },
        WorkerRequest::CloseReverseSession {
            session_id: session(),
        },
        WorkerRequest::CloseSession {
            session_id: session(),
        },
        WorkerRequest::KillSession {
            session_id: session(),
        },
        WorkerRequest::CancelOperation {
            session_id: session(),
            operation_id: operation("op-002"),
        },
    ];

    for request in requests {
        assert_eq!(request.session_id(), &session());
    }
}

#[test]
fn rejects_wrong_protocol_version() {
    let error = decode(
        r#"{"version":99,"request_id":"req","message":{"method":"close_session","session_id":{"id":"session-001"}}}"#,
        read_request,
    )
    .unwrap_err();

    assert!(matches!(
        error,
        WorkerProtocolError::UnsupportedVersion {
            actual: 99,
            expected: WORKER_PROTOCOL_VERSION
        }
    ));
    assert_eq!(
        error.message(),
        "unsupported worker protocol version 99; expected 2"
    );
}

#[test]
fn lines_that_are_no_documents_are_refused() {
    let error = decode("{", read_request).unwrap_err();
    assert!(error.message().starts_with("EOF while parsing"));
    assert_eq!(
        encode_jsonl(Err("path contains invalid UTF-8 characters".to_string())).unwrap_err(),
        WorkerProtocolError::Json("path contains invalid UTF-8 characters".to_string())
    );
}

#[test]
fn envelopes_carry_the_protocol_version() {
    let envelope = WorkerEnvelope::new("req", 5u8);
    assert_eq!(envelope.version, 2);
    assert_eq!(envelope.request_id, "req");
    assert_eq!(decode_jsonl(Ok(envelope)).unwrap().message, 5);
}

#[test]
fn a_line_ends_at_its_line_feed() {
    assert_eq!(
        read_line("é\nrest".as_bytes()).unwrap(),
        ("é\n".to_string(), 3)
    );
    assert_eq!(read_line(b"\n").unwrap(), ("\n".to_string(), 1));
    let closed = read_line(b"half").unwrap_err();
    assert_eq!(closed.message(), "pipe closed before request");
    let broken = read_line(b"\xff\n").unwrap_err();
    assert_eq!(
        broken,
        LineError::NotUtf8("invalid utf-8 sequence of 1 bytes from index 0".to_string())
    );
    assert_eq!(
        broken.message(),
        "invalid utf-8 sequence of 1 bytes from index 0"
    );
}

#[test]
fn a_line_may_have_the_greatest_length_and_no_more() {
    let mut bytes = vec![b'a'; MAX_LINE_BYTES];
    bytes.push(b'\n');
    assert_eq!(read_line(&bytes).unwrap().1, MAX_LINE_BYTES + 1);

    let long = vec![b'a'; MAX_LINE_BYTES + 1];
    let error = read_line(&long).unwrap_err();
    assert_eq!(error, LineError::TooLarge);
    assert_eq!(error.message(), "request line is too large");
}

#[test]
fn responses_name_what_was_written() {
    let write = || WorkerArtifactWrite {
        relative_path: JoinedPath::at(&HostPath::new("artifacts")),
        kind: "debug.events".to_string(),
        byte_len: 3,
        description: None,
    };
    assert!(WorkerResponse::ok("done").writes().is_empty());
    assert_eq!(
        WorkerResponse::ok_with_writes("done", vec![write()]).writes(),
        &vec![write()]
    );
    assert_eq!(
        WorkerResponse::failed("code", "why"),
        WorkerResponse::Failed {
            code: "code".to_string(),
            message: "why".to_string(),
            writes: Vec::new(),
        }
    );
}
