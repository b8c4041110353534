//! Laws on the MCP server.

use crate::json::{Json, JsonView};
use crate::laws::document::{has_fields, holds, is_request, params_of};
use crate::mcp::{
    finish_tool_call, respond, service_response_result, tool_descriptors, tool_reply, McpError,
    McpRequest, McpResponse, McpServer, RequestStep, ToolCallOutput, ToolCallParams, ToolStep,
};
use crate::rpc::JsonRpcResponse;
use crate::{json, mcp};
use vstd::prelude::*;
use vstd::string::*;

verus! {

/// The tool is listed under this name.
pub open spec fn is_listed(tools: Seq<Json>, name: Seq<char>) -> bool {
    exists|i: int|
        0 <= i < tools.len() && holds((#[trigger] tools[i])@, "name"@, JsonView::Text(name))
}

/// Every tool that is listed calls the method of the service that has its own
/// name, with the arguments as they are, but for the one that reads the facts
/// of a workspace. So no two tools call the same method. Arguments that are no
/// object, and names that are not listed, are refused.
pub proof fn law_tools_call_the_method_of_their_name<H>(
    server: McpServer<H>,
    tools: Vec<Json>,
    name: &str,
    arguments: Json,
    step: ToolStep,
)
    requires
        call_ensures(tool_descriptors, (), tools),
        call_ensures(McpServer::<H>::call_tool, (&server, name, arguments), step),
    ensures
        step matches ToolStep::CallService(request) ==> {
            &&& is_request(request)
            &&& request.method@ == name@
            &&& params_of(request) == arguments@
        },
        step matches ToolStep::ReadFacts { arguments: given } ==> name@ == "workspace.facts"@
            && given == arguments,
        name@ == "workspace.facts"@ ==> step is ReadFacts,
        is_listed(tools@, name@) && name@ != "workspace.facts"@ && arguments@ is Object
            ==> step is CallService,
        is_listed(tools@, name@) && name@ != "workspace.facts"@ && !(arguments@ is Object)
            ==> step == ToolStep::Refuse(McpError::InvalidToolArguments),
        !is_listed(tools@, name@) ==> (step matches ToolStep::Refuse(McpError::UnknownTool(unknown))
            && unknown@ == name@),
{
    lemma_listed(tools@, name@);
    lemma_facts_are_read_here();
}

proof fn lemma_facts_are_read_here()
    ensures
        !mcp::is_service_tool("workspace.facts"@),
{
    reveal_strlit("workspace.facts");
    reveal_strlit("service.health");
    reveal_strlit("service.info");
    reveal_strlit("operation.get");
    reveal_strlit("operation.cancel");
    reveal_strlit("operation.stream");
    reveal_strlit("debug.session.create");
    reveal_strlit("debug.session.close");
    reveal_strlit("debug.session.kill");
    reveal_strlit("debug.eval");
    reveal_strlit("debug.modules");
    reveal_strlit("debug.threads");
    reveal_strlit("debug.stack");
    reveal_strlit("debug.add_symbols");
    reveal_strlit("debug.read_memory");
    assert("workspace.facts"@[0] == 'w');
}

/// The listed names are these.
pub open spec fn is_tool_name(name: Seq<char>) -> bool {
    ||| name == "service.health"@ || name == "service.info"@
    ||| name == "operation.get"@ || name == "operation.cancel"@ || name == "operation.stream"@
    ||| name == "debug.session.create"@ || name == "debug.session.close"@ || name
        == "debug.session.kill"@
    ||| name == "debug.eval"@ || name == "debug.modules"@ || name == "debug.threads"@ || name
        == "debug.stack"@
    ||| name == "debug.add_symbols"@ || name == "debug.read_memory"@
    ||| name == "workspace.facts"@
}

/// A tool is listed where, and only where, it is one of the platform's own.
pub proof fn law_listed_tools_are_the_platforms(tools: Vec<Json>, name: Seq<char>)
    requires
        call_ensures(tool_descriptors, (), tools),
    ensures
        is_listed(tools@, name) <==> is_tool_name(name),
{
    lemma_listed(tools@, name);
}

proof fn lemma_listed(tools: Seq<Json>, name: Seq<char>)
    requires
        json::item_views(tools) == mcp::tool_list(),
    ensures
        is_listed(tools, name) <==> is_tool_name(name),
        tools.len() == 15,
{
    let list = mcp::tool_list();
    assert(list.len() == 15);
    assert(tools.len() == json::item_views(tools).len());
    assert forall|i: int| 0 <= i < 15 implies (holds(
        (#[trigger] tools[i])@,
        "name"@,
        JsonView::Text(name),
    ) <==> mcp::tool_names()[i] == name) by {
        assert(tools[i]@ == list[i]);
        lemma_entry_name_at(i, name);
    }
    let names = mcp::tool_names();
    assert(names[0] == "service.health"@ && names[1] == "service.info"@ && names[2]
        == "debug.session.create"@ && names[3] == "debug.eval"@ && names[4] == "debug.modules"@
        && names[5] == "debug.threads"@ && names[6] == "debug.stack"@ && names[7]
        == "debug.add_symbols"@ && names[8] == "debug.read_memory"@ && names[9]
        == "debug.session.close"@ && names[10] == "debug.session.kill"@ && names[11]
        == "operation.get"@ && names[12] == "operation.cancel"@ && names[13]
        == "operation.stream"@ && names[14] == "workspace.facts"@);
    if is_tool_name(name) {
        let i = choose|i: int| 0 <= i < 15 && #[trigger] names[i] == name;
        assert(names[i] == name);
        assert(holds(tools[i]@, "name"@, JsonView::Text(name)));
    }
    if is_listed(tools, name) {
        let i = choose|i: int|
            0 <= i < tools.len() && holds(
                (#[trigger] tools[i])@,
                "name"@,
                JsonView::Text(name),
            );
        assert(names[i] == name);
    }
}

proof fn lemma_entry_name_at(i: int, other: Seq<char>)
    requires
        0 <= i < 15,
    ensures
        holds(mcp::tool_list()[i], "name"@, JsonView::Text(other)) <==> mcp::tool_names()[i]
            == other,
{
    let fields = mcp::tool_list()[i]->Object_0;
    let name = mcp::tool_names()[i];
    assert(fields.len() == 3);
    assert(fields[0] == ("name"@, JsonView::Text(name)));
    assert(fields[1].0 == "description"@);
    assert(fields[2].0 == "inputSchema"@);
    reveal_strlit("name");
    reveal_strlit("description");
    reveal_strlit("inputSchema");
    if holds(mcp::tool_list()[i], "name"@, JsonView::Text(other)) {
        let k = choose|k: int|
            0 <= k < fields.len() && #[trigger] fields[k] == ("name"@, JsonView::Text(other));
        assert(k == 0);
    }
}

/// The call of a tool names the tool and its arguments; without arguments the
/// tool gets an empty object.
pub proof fn law_named_tools_are_called<H>(
    server: McpServer<H>,
    params: Result<ToolCallParams, String>,
    step: ToolStep,
)
    requires
        call_ensures(McpServer::<H>::call_named_tool, (&server, params), step),
    ensures
        params matches Err(reason) ==> step == ToolStep::Refuse(McpError::Json(reason)),
        params matches Ok(given) ==> {
            &&& step matches ToolStep::CallService(request) ==> request.method@ == given.name@
                && match given.arguments {
                Some(arguments) => params_of(request) == arguments@,
                None => has_fields(params_of(request), 0),
            }
            &&& step matches ToolStep::ReadFacts { arguments: used } ==> given.name@
                == "workspace.facts"@ && match given.arguments {
                Some(arguments) => used == arguments,
                None => has_fields(used@, 0),
            }
            &&& step matches ToolStep::Refuse(McpError::UnknownTool(unknown)) ==> unknown@
                == given.name@
            &&& is_tool_name(given.name@) && given.name@ != "workspace.facts"@ && (given.arguments
                is None || given.arguments->0@ is Object) ==> step is CallService
            &&& given.name@ == "workspace.facts"@ ==> step is ReadFacts
        },
{
    lemma_facts_are_read_here();
}

/// A request is answered where it has an identifier, under that identifier,
/// with a result or else with an error. Tools are called under the parameters
/// of the request; the list of tools is the one that can be called; every
/// other method but the two of the handshake is an error that names it.
pub proof fn law_requests_are_answered<H>(
    server: McpServer<H>,
    tools: Vec<Json>,
    request: McpRequest,
    step: RequestStep,
)
    requires
        call_ensures(tool_descriptors, (), tools),
        call_ensures(McpServer::<H>::handle_request, (&server, request), step),
    ensures
        step is CallTool <==> request.method@ == "tools/call"@,
        step matches RequestStep::CallTool { id, params } ==> {
            &&& id == request.id
            &&& request.params matches Some(given) ==> params == given
            &&& request.params is None ==> has_fields(params@, 0)
        },
        step matches RequestStep::Done(response) ==> {
            &&& response is Some <==> request.id is Some
            &&& response matches Some(answer) ==> {
                &&& answer.jsonrpc@ == "2.0"@
                &&& answer.id == request.id
                &&& (answer.result is Some) != (answer.error is Some)
                &&& answer.error is Some <==> !(request.method@ == "initialize"@ || request.method@
                    == "notifications/initialized"@ || request.method@ == "tools/list"@)
                &&& answer.error matches Some(error) ==> error.code == -32000 && error.message@
                    == "unknown MCP method `"@ + request.method@ + "`"@
                &&& request.method@ == "tools/list"@ ==> {
                    &&& has_fields(answer.result->0@, 1)
                    &&& holds(
                        answer.result->0@,
                        "tools"@,
                        JsonView::Array(json::item_views(tools@)),
                    )
                }
                &&& request.method@ == "notifications/initialized"@ ==> answer.result->0@ is Null
                &&& request.method@ == "initialize"@ ==> {
                    &&& has_fields(answer.result->0@, 3)
                    &&& holds(
                        answer.result->0@,
                        "protocolVersion"@,
                        JsonView::Text("2024-11-05"@),
                    )
                    &&& exists|info: JsonView|
                        #![trigger holds(answer.result->0@, "serverInfo"@, info)]
                        holds(answer.result->0@, "serverInfo"@, info) && holds(
                            info,
                            "name"@,
                            JsonView::Text("dbgatlas-mcp"@),
                        ) && holds(info, "version"@, JsonView::Text("0.1.0"@))
                    &&& holds(
                        answer.result->0@,
                        "capabilities"@,
                        JsonView::Object(seq![("tools"@, JsonView::Object(seq![]))]),
                    )
                }
            }
        },
{
    reveal_strlit("initialize");
    reveal_strlit("notifications/initialized");
    reveal_strlit("tools/list");
    reveal_strlit("tools/call");
    assert("initialize"@[0] == 'i');
    assert("tools/list"@[0] == 't' && "tools/list"@[6] == 'l');
    assert("tools/call"@[0] == 't' && "tools/call"@[6] == 'c');
    assert("notifications/initialized"@[0] == 'n');
    if let RequestStep::Done(Some(answer)) = step {
        if request.method@ == "tools/list"@ {
            let fields = answer.result->0@->Object_0;
            assert(fields[0] == ("tools"@, JsonView::Array(json::item_views(tools@))));
        }
        if request.method@ == "initialize"@ {
            let fields = answer.result->0@->Object_0;
            assert(fields[0] == ("protocolVersion"@, JsonView::Text("2024-11-05"@)));
            let info = fields[1].1;
            assert(fields[1] == ("serverInfo"@, info));
            assert(holds(answer.result->0@, "serverInfo"@, info));
            assert(info->Object_0[0] == ("name"@, JsonView::Text("dbgatlas-mcp"@)));
            assert(info->Object_0[1] == ("version"@, JsonView::Text("0.1.0"@)));
            assert(fields[2] == (
                "capabilities"@,
                JsonView::Object(seq![("tools"@, JsonView::Object(seq![]))]),
            ));
        }
    }
}

/// What the service answered is what the tool gave: a refusal is marked as an
/// error and tells its code and its message, and a result is given as it is.
pub proof fn law_service_answers_are_passed_on(response: JsonRpcResponse, output: ToolCallOutput)
    requires
        call_ensures(service_response_result, (response,), output),
    ensures
        output.is_error == (response.error is Some),
        response.error matches Some(error) ==> {
            &&& has_fields(output.value@, 1)
            &&& exists|told: JsonView|
                #![trigger holds(output.value@, "error"@, told)]
                {
                    &&& holds(output.value@, "error"@, told)
                    &&& has_fields(told, 2)
                    &&& holds(told, "message"@, JsonView::Text(error.message@))
                    &&& error.code < 0 ==> holds(told, "code"@, JsonView::Int(error.code))
                    &&& error.code >= 0 ==> holds(
                        told,
                        "code"@,
                        JsonView::Uint(error.code as u64),
                    )
                }
        },
        response.error is None ==> match response.result {
            Some(result) => output.value == result,
            None => output.value@ is Null,
        },
{
    if let Some(error) = response.error {
        let fields = output.value@->Object_0;
        let told = fields[0].1;
        assert(fields[0] == ("error"@, told));
        assert(holds(output.value@, "error"@, told));
        assert(told->Object_0[0] == ("code"@, json::number(error.code as int)));
        assert(told->Object_0[1] == ("message"@, JsonView::Text(error.message@)));
    }
}

/// What a tool gave is answered under the identifier of its call, as one text,
/// and marked as an error where the tool said so.
pub proof fn law_tool_results_are_answered(
    id: Option<Json>,
    output: Result<ToolCallOutput, McpError>,
    response: Option<McpResponse>,
    message: String,
)
    requires
        call_ensures(finish_tool_call, (id, output), response),
        output is Err ==> call_ensures(McpError::message, (&output->Err_0,), message),
    ensures
        response is Some <==> id is Some,
        response matches Some(answer) ==> {
            &&& answer.id == id
            &&& output is Err ==> (answer.error matches Some(told) && told.message@ == message@
                && told.code == -32000) && answer.result is None
            &&& output matches Ok(given) ==> (json::pretty_text(given.value@) matches Ok(text) ==> {
                &&& answer.error is None
                &&& answer.result is Some
                &&& has_fields(answer.result->0@, 2)
                &&& holds(answer.result->0@, "isError"@, JsonView::Bool(given.is_error))
                &&& exists|entry: JsonView|
                    #![trigger holds(answer.result->0@, "content"@, JsonView::Array(seq![entry]))]
                    holds(answer.result->0@, "content"@, JsonView::Array(seq![entry])) && holds(
                        entry,
                        "type"@,
                        JsonView::Text("text"@),
                    ) && holds(entry, "text"@, JsonView::Text(text))
            })
        },
{
    if let (Some(answer), Ok(given)) = (response, output) {
        if let Ok(text) = json::pretty_text(given.value@) {
            let fields = answer.result->0@->Object_0;
            assert(fields[1] == ("isError"@, JsonView::Bool(given.is_error)));
            let entry = fields[0].1->Array_0[0];
            assert(fields[0].1->Array_0 =~= seq![entry]);
            assert(fields[0] == ("content"@, JsonView::Array(seq![entry])));
            assert(holds(answer.result->0@, "content"@, JsonView::Array(seq![entry])));
            assert(entry->Object_0[0] == ("type"@, JsonView::Text("text"@)));
            assert(entry->Object_0[1] == ("text"@, JsonView::Text(text)));
        }
    }
}

/// What a request came to is answered under its identifier.
pub proof fn law_outcomes_are_answered(
    id: Option<Json>,
    outcome: Result<Json, McpError>,
    response: Option<McpResponse>,
    message: String,
)
    requires
        call_ensures(respond, (id, outcome), response),
        outcome is Err ==> call_ensures(McpError::message, (&outcome->Err_0,), message),
    ensures
        response is Some <==> id is Some,
        response matches Some(answer) ==> {
            &&& answer.id == id
            &&& outcome matches Ok(result) ==> (answer.result matches Some(given) && given@
                == result@) && answer.error is None
            &&& outcome is Err ==> (answer.error matches Some(told) && told.message@ == message@
                && told.code == -32000) && answer.result is None
        },
{
}

/// The tool is listed under this name, with this description.
pub open spec fn is_described(tool: JsonView, name: Seq<char>, description: Seq<char>) -> bool {
    &&& has_fields(tool, 3)
    &&& holds(tool, "name"@, JsonView::Text(name))
    &&& holds(tool, "description"@, JsonView::Text(description))
}

/// The tool takes an object with this property, of this type.
pub open spec fn takes(tool: JsonView, property: Seq<char>, kind: Seq<char>) -> bool {
    exists|schema: JsonView, properties: JsonView, value: JsonView|
        #![trigger holds(tool, "inputSchema"@, schema), holds(schema, "properties"@, properties), holds(properties, property, value)]
        {
            &&& holds(tool, "inputSchema"@, schema)
            &&& holds(schema, "type"@, JsonView::Text("object"@))
            &&& holds(schema, "properties"@, properties)
            &&& holds(properties, property, value)
            &&& value == JsonView::Object(seq![("type"@, JsonView::Text(kind))])
        }
}

/// The tool needs these properties, and no other.
pub open spec fn needs(tool: JsonView, required: Seq<Seq<char>>) -> bool {
    exists|schema: JsonView, names: JsonView|
        #![trigger holds(tool, "inputSchema"@, schema), holds(schema, "required"@, names)]
        {
            &&& holds(tool, "inputSchema"@, schema)
            &&& holds(schema, "required"@, names)
            &&& names matches JsonView::Array(listed)
            &&& listed.len() == required.len()
            &&& forall|i: int|
                0 <= i < listed.len() ==> #[trigger] listed[i] == JsonView::Text(required[i])
        }
}

proof fn lemma_tool(
    tool: JsonView,
    name: Seq<char>,
    description: Seq<char>,
    properties: Seq<(Seq<char>, JsonView)>,
    required: Seq<Seq<char>>,
)
    requires
        tool == mcp::tool_entry(name, description, mcp::object_schema(properties, required)),
    ensures
        is_described(tool, name, description),
        needs(tool, required),
        forall|i: int, kind: Seq<char>|
            #![trigger properties[i], mcp::typed(kind)]
            0 <= i < properties.len() && properties[i].1 == mcp::typed(kind) ==> takes(
                tool,
                properties[i].0,
                kind,
            ),
{
    lemma_described(tool, name, description, mcp::object_schema(properties, required));
    let schema = mcp::object_schema(properties, required);
    let fields = schema->Object_0;
    assert(holds(tool, "inputSchema"@, schema));
    assert(fields[0] == ("type"@, JsonView::Text("object"@)));
    let given = fields[1].1;
    assert(fields[1] == ("properties"@, given));
    assert(holds(schema, "properties"@, given));
    let names = fields[2].1;
    assert(fields[2] == ("required"@, names));
    assert(holds(schema, "required"@, names));
    assert forall|i: int, kind: Seq<char>|
        #![trigger properties[i], mcp::typed(kind)]
        0 <= i < properties.len() && properties[i].1 == mcp::typed(kind) implies takes(
        tool,
        properties[i].0,
        kind,
    ) by {
        let value = properties[i].1;
        assert(given->Object_0[i] == (properties[i].0, value));
        assert(holds(given, properties[i].0, value));
    }
}

proof fn lemma_described(
    tool: JsonView,
    name: Seq<char>,
    description: Seq<char>,
    schema: JsonView,
)
    requires
        tool == mcp::tool_entry(name, description, schema),
    ensures
        is_described(tool, name, description),
        holds(tool, "inputSchema"@, schema),
{
    let fields = tool->Object_0;
    assert(fields[0] == ("name"@, JsonView::Text(name)));
    assert(fields[1] == ("description"@, JsonView::Text(description)));
    assert(fields[2] == ("inputSchema"@, schema));
}

/// Every tool says what it does and which arguments it needs: the tools on a
/// session its reference, those on an operation its reference, and each the
/// arguments of its own.
pub proof fn law_tools_say_what_they_need(tools: Vec<Json>)
    requires
        call_ensures(tool_descriptors, (), tools),
    ensures
        tools@.len() == 15,
        is_described(tools@[0]@, "service.health"@, "Return DbgAtlas service health."@),
        holds(tools@[0]@, "inputSchema"@, JsonView::Object(seq![])),
        is_described(tools@[1]@, "service.info"@, "Return DbgAtlas service information."@),
        holds(tools@[1]@, "inputSchema"@, JsonView::Object(seq![])),
        is_described(
            tools@[2]@,
            "debug.session.create"@,
            "Create a debug session from a dump or attach target."@,
        ),
        takes(tools@[2]@, "project_root"@, "string"@),
        takes(tools@[2]@, "target"@, "object"@),
        needs(tools@[2]@, seq!["project_root"@, "target"@]),
        is_described(
            tools@[3]@,
            "debug.eval"@,
            "Execute a raw WinDbg command in an existing session."@,
        ),
        takes(tools@[3]@, "session_id"@, "object"@),
        takes(tools@[3]@, "command"@, "string"@),
        needs(tools@[3]@, seq!["session_id"@, "command"@]),
        needs_session(tools@[4]@, "debug.modules"@, "List modules for a debug session."@),
        needs_session(tools@[5]@, "debug.threads"@, "List threads for a debug session."@),
        needs_session(tools@[6]@, "debug.stack"@, "Get stack for a debug session."@),
        is_described(
            tools@[7]@,
            "debug.add_symbols"@,
            "Add a symbol path to a debug session."@,
        ),
        takes(tools@[7]@, "session_id"@, "object"@),
        takes(tools@[7]@, "symbol_path"@, "string"@),
        takes(tools@[7]@, "reload"@, "boolean"@),
        needs(tools@[7]@, seq!["session_id"@, "symbol_path"@]),
        is_described(tools@[8]@, "debug.read_memory"@, "Read virtual memory to an artifact."@),
        takes(tools@[8]@, "session_id"@, "object"@),
        takes(tools@[8]@, "length"@, "integer"@),
        needs(tools@[8]@, seq!["session_id"@, "address"@, "length"@]),
        needs_session(tools@[9]@, "debug.session.close"@, "Close a debug session."@),
        needs_session(tools@[10]@, "debug.session.kill"@, "Kill a debug session worker."@),
        needs_operation(
            tools@[11]@,
            "operation.get"@,
            "Return an operation status and artifact refs."@,
        ),
        needs_operation(tools@[12]@, "operation.cancel"@, "Cancel a running operation."@),
        needs_operation(tools@[13]@, "operation.stream"@, "Return operation events."@),
        is_described(
            tools@[14]@,
            "workspace.facts"@,
            "Read workspace facts: artifact registry, operations, and command audit."@,
        ),
        takes(tools@[14]@, "path"@, "string"@),
        needs(tools@[14]@, seq!["path"@]),
{
    let views = json::item_views(tools@);
    let list = mcp::tool_list();
    assert(views.len() == tools@.len());
    assert forall|i: int| 0 <= i < 15 implies (#[trigger] tools@[i])@ == list[i] by {
        assert(views[i] == tools@[i]@);
    }
    lemma_described(
        list[0],
        "service.health"@,
        "Return DbgAtlas service health."@,
        JsonView::Object(seq![]),
    );
    lemma_described(
        list[1],
        "service.info"@,
        "Return DbgAtlas service information."@,
        JsonView::Object(seq![]),
    );
    lemma_created(list[2]);
    lemma_evaluated(list[3]);
    lemma_on_session(list[4], "debug.modules"@, "List modules for a debug session."@);
    lemma_on_session(list[5], "debug.threads"@, "List threads for a debug session."@);
    lemma_on_session(list[6], "debug.stack"@, "Get stack for a debug session."@);
    lemma_symbols(list[7]);
    lemma_memory(list[8]);
    lemma_on_session(list[9], "debug.session.close"@, "Close a debug session."@);
    lemma_on_session(list[10], "debug.session.kill"@, "Kill a debug session worker."@);
    lemma_on_operation(
        list[11],
        "operation.get"@,
        "Return an operation status and artifact refs."@,
    );
    lemma_on_operation(list[12], "operation.cancel"@, "Cancel a running operation."@);
    lemma_on_operation(list[13], "operation.stream"@, "Return operation events."@);
    lemma_on_path(list[14]);
}

/// The tool needs a session, and nothing else.
pub open spec fn needs_session(
    tool: JsonView,
    name: Seq<char>,
    description: Seq<char>,
) -> bool {
    is_described(tool, name, description) && takes(tool, "session_id"@, "object"@) && needs(
        tool,
        seq!["session_id"@],
    )
}

/// The tool needs an operation, and nothing else.
pub open spec fn needs_operation(
    tool: JsonView,
    name: Seq<char>,
    description: Seq<char>,
) -> bool {
    is_described(tool, name, description) && takes(tool, "operation_id"@, "object"@) && needs(
        tool,
        seq!["operation_id"@],
    )
}

proof fn lemma_on_session(tool: JsonView, name: Seq<char>, description: Seq<char>)
    requires
        tool == mcp::tool_entry(name, description, mcp::session_arguments()),
    ensures
        needs_session(tool, name, description),
{
    let properties = seq![("session_id"@, mcp::typed("object"@))];
    lemma_tool(tool, name, description, properties, seq!["session_id"@]);
    assert(properties[0] == ("session_id"@, mcp::typed("object"@)));
}

proof fn lemma_on_operation(tool: JsonView, name: Seq<char>, description: Seq<char>)
    requires
        tool == mcp::tool_entry(name, description, mcp::operation_arguments()),
    ensures
        needs_operation(tool, name, description),
{
    let properties = seq![("operation_id"@, mcp::typed("object"@))];
    lemma_tool(tool, name, description, properties, seq!["operation_id"@]);
    assert(properties[0] == ("operation_id"@, mcp::typed("object"@)));
}

proof fn lemma_created(tool: JsonView)
    requires
        tool == mcp::tool_list()[2],
    ensures
        is_described(
            tool,
            "debug.session.create"@,
            "Create a debug session from a dump or attach target."@,
        ),
        takes(tool, "project_root"@, "string"@),
        takes(tool, "target"@, "object"@),
        needs(tool, seq!["project_root"@, "target"@]),
{
    let properties = seq![
        ("project_root"@, mcp::typed("string"@)),
        ("target"@, mcp::typed("object"@)),
    ];
    lemma_tool(
        tool,
        "debug.session.create"@,
        "Create a debug session from a dump or attach target."@,
        properties,
        seq!["project_root"@, "target"@],
    );
    assert(properties[0] == ("project_root"@, mcp::typed("string"@)));
    assert(properties[1] == ("target"@, mcp::typed("object"@)));
}

proof fn lemma_evaluated(tool: JsonView)
    requires
        tool == mcp::tool_list()[3],
    ensures
        is_described(
            tool,
            "debug.eval"@,
            "Execute a raw WinDbg command in an existing session."@,
        ),
        takes(tool, "session_id"@, "object"@),
        takes(tool, "command"@, "string"@),
        needs(tool, seq!["session_id"@, "command"@]),
{
    let properties = seq![
        ("session_id"@, mcp::typed("object"@)),
        ("command"@, mcp::typed("string"@)),
    ];
    lemma_tool(
        tool,
        "debug.eval"@,
        "Execute a raw WinDbg command in an existing session."@,
        properties,
        seq!["session_id"@, "command"@],
    );
    assert(properties[0] == ("session_id"@, mcp::typed("object"@)));
    assert(properties[1] == ("command"@, mcp::typed("string"@)));
}

proof fn lemma_symbols(tool: JsonView)
    requires
        tool == mcp::tool_list()[7],
    ensures
        is_described(tool, "debug.add_symbols"@, "Add a symbol path to a debug session."@),
        takes(tool, "session_id"@, "object"@),
        takes(tool, "symbol_path"@, "string"@),
        takes(tool, "reload"@, "boolean"@),
        needs(tool, seq!["session_id"@, "symbol_path"@]),
{
    let properties = seq![
        ("session_id"@, mcp::typed("object"@)),
        ("symbol_path"@, mcp::typed("string"@)),
        ("reload"@, mcp::typed("boolean"@)),
    ];
    lemma_tool(
        tool,
        "debug.add_symbols"@,
        "Add a symbol path to a debug session."@,
        properties,
        seq!["session_id"@, "symbol_path"@],
    );
    assert(properties[0] == ("session_id"@, mcp::typed("object"@)));
    assert(properties[1] == ("symbol_path"@, mcp::typed("string"@)));
    assert(properties[2] == ("reload"@, mcp::typed("boolean"@)));
}

proof fn lemma_memory(tool: JsonView)
    requires
        tool == mcp::tool_list()[8],
    ensures
        is_described(tool, "debug.read_memory"@, "Read virtual memory to an artifact."@),
        takes(tool, "session_id"@, "object"@),
        takes(tool, "length"@, "integer"@),
        needs(tool, seq!["session_id"@, "address"@, "length"@]),
{
    let properties = seq![
        ("session_id"@, mcp::typed("object"@)),
        ("address"@, JsonView::Object(seq![])),
        ("length"@, mcp::typed("integer"@)),
    ];
    lemma_tool(
        tool,
        "debug.read_memory"@,
        "Read virtual memory to an artifact."@,
        properties,
        seq!["session_id"@, "address"@, "length"@],
    );
    assert(properties[0] == ("session_id"@, mcp::typed("object"@)));
    assert(properties[2] == ("length"@, mcp::typed("integer"@)));
}

proof fn lemma_on_path(tool: JsonView)
    requires
        tool == mcp::tool_list()[14],
    ensures
        is_described(
            tool,
            "workspace.facts"@,
            "Read workspace facts: artifact registry, operations, and command audit."@,
        ),
        takes(tool, "path"@, "string"@),
        needs(tool, seq!["path"@]),
{
    let properties = seq![("path"@, mcp::typed("string"@))];
    lemma_tool(
        tool,
        "workspace.facts"@,
        "Read workspace facts: artifact registry, operations, and command audit."@,
        properties,
        seq!["path"@],
    );
    assert(properties[0] == ("path"@, mcp::typed("string"@)));
}

/// What a tool gave is told as one text, and what could not be written is an
/// error that says why.
pub proof fn law_tool_values_are_told(
    written: Result<String, String>,
    is_error: bool,
    reply: Result<Json, McpError>,
)
    requires
        call_ensures(tool_reply, (written, is_error), reply),
    ensures
        written matches Err(reason) ==> reply == Err::<Json, McpError>(McpError::Json(reason)),
        written matches Ok(text) ==> {
            &&& reply matches Ok(document)
            &&& has_fields(document@, 2)
            &&& holds(document@, "isError"@, JsonView::Bool(is_error))
            &&& exists|entry: JsonView|
                #![trigger holds(document@, "content"@, JsonView::Array(seq![entry]))]
                holds(document@, "content"@, JsonView::Array(seq![entry])) && has_fields(entry, 2)
                    && holds(entry, "type"@, JsonView::Text("text"@)) && holds(
                    entry,
                    "text"@,
                    JsonView::Text(text@),
                )
        },
{
    if let (Ok(text), Ok(document)) = (written, reply) {
        let fields = document@->Object_0;
        assert(fields[1] == ("isError"@, JsonView::Bool(is_error)));
        let entry = fields[0].1->Array_0[0];
        assert(fields[0].1->Array_0 =~= seq![entry]);
        assert(fields[0] == ("content"@, JsonView::Array(seq![entry])));
        assert(holds(document@, "content"@, JsonView::Array(seq![entry])));
        assert(entry->Object_0[0] == ("type"@, JsonView::Text("text"@)));
        assert(entry->Object_0[1] == ("text"@, JsonView::Text(text@)));
    }
}

/// A server stands in front of the service that it was given, and there is
/// none where that did not start.
pub proof fn law_servers_stand_before_their_service<H>(
    host: H,
    server: McpServer<H>,
    started: Result<H, String>,
    outcome: Result<McpServer<H>, McpError>,
)
    requires
        call_ensures(McpServer::<H>::with_host, (host,), server),
        call_ensures(McpServer::<H>::with_process_workers, (started,), outcome),
    ensures
        server.host == host,
        outcome is Ok <==> started is Ok,
        outcome matches Ok(made) ==> made.host == started->Ok_0,
        started matches Err(reason) ==> outcome == Err::<McpServer<H>, McpError>(
            McpError::Service(reason),
        ),
{
}

} // verus!
