//! The dispatcher: what the server answers to a request, as a
//! mathematical function and as the code that computes it.

use crate::json::{optional_view, text_eq, Json, JsonValue};
use crate::protocol::{
    ErrorModel, McpError, McpRequest, McpResponse, RequestModel, ResponseModel, Tool, ToolModel,
};
use crate::registry::{distinct_names, registered, ToolRegistry};
use crate::wire::{request_of_json, response_json, tool_json};
use vstd::prelude::*;
use vstd::string::*;

verus! {

/// The error code for an unknown method or an unknown tool.
pub const METHOD_NOT_FOUND: i32 = -32601;

/// The error code for missing or unusable parameters.
pub const INVALID_PARAMS: i32 = -32602;

/// A response that carries `result`.
pub open spec fn success(id: Option<Json>, result: Json) -> ResponseModel {
    ResponseModel { jsonrpc: "2.0"@, id, result: Some(result), error: None }
}

/// A response that carries an error with `code` and `message` and no
/// further data.
pub open spec fn failure(id: Option<Json>, code: int, message: Seq<char>) -> ResponseModel {
    ResponseModel {
        jsonrpc: "2.0"@,
        id,
        result: None,
        error: Some(ErrorModel { code, message, data: None }),
    }
}

/// The document that answers `initialize`: protocol version,
/// capabilities and the server's identity.
pub open spec fn initialize_result() -> Json {
    Json::Object(
        seq![
            ("protocolVersion"@, Json::String("2024-11-05"@)),
            ("capabilities"@, Json::Object(seq![("tools"@, Json::Object(seq![]))])),
            (
                "serverInfo"@,
                Json::Object(
                    seq![
                        ("name"@, Json::String("mcp-server"@)),
                        ("version"@, Json::String("0.1.0"@)),
                    ],
                ),
            ),
        ],
    )
}

/// The input schema of the `echo` tool: an object with one required
/// string property, `text`.
pub open spec fn echo_schema() -> Json {
    Json::Object(
        seq![
            ("type"@, Json::String("object"@)),
            (
                "properties"@,
                Json::Object(
                    seq![
                        (
                            "text"@,
                            Json::Object(
                                seq![
                                    ("type"@, Json::String("string"@)),
                                    ("description"@, Json::String("Text to echo back"@)),
                                ],
                            ),
                        ),
                    ],
                ),
            ),
            ("required"@, Json::Array(seq![Json::String("text"@)])),
        ],
    )
}

/// The descriptor of the built-in `echo` tool.
pub open spec fn echo_tool() -> ToolModel {
    ToolModel {
        name: "echo"@,
        description: "Echo back the input text"@,
        input_schema: echo_schema(),
    }
}

/// The document that answers `tools/list`: every registered tool, in
/// registry order.
pub open spec fn tools_list_result(tools: Seq<ToolModel>) -> Json {
    Json::Object(
        seq![("tools"@, Json::Array(Seq::new(tools.len(), |i: int| tool_json(tools[i]))))],
    )
}

/// The tool that a call names: the member `name` of the parameters,
/// where it is a string.
pub open spec fn tool_name(params: Json) -> Option<Seq<char>> {
    match params.get("name"@) {
        Some(name) => name.as_text(),
        None => None,
    }
}

/// The text that `echo` sends back: the member `text` of the member
/// `arguments`, where it is a string, and a fixed phrase otherwise.
pub open spec fn echo_text(params: Json) -> Seq<char> {
    let text = match params.get("arguments"@) {
        Some(arguments) => match arguments.get("text"@) {
            Some(text) => text.as_text(),
            None => None,
        },
        None => None,
    };
    match text {
        Some(text) => text,
        None => "No text provided"@,
    }
}

/// The document that answers a call of `echo`.
pub open spec fn echo_result(params: Json) -> Json {
    Json::Object(
        seq![
            (
                "content"@,
                Json::Array(
                    seq![
                        Json::Object(
                            seq![
                                ("type"@, Json::String("text"@)),
                                ("text"@, Json::String("Echo: "@ + echo_text(params))),
                            ],
                        ),
                    ],
                ),
            ),
        ],
    )
}

/// The answer to `tools/call`. The tool is chosen by its name alone:
/// `echo` is built in, whatever the registry holds.
pub open spec fn call_response(request: RequestModel) -> ResponseModel {
    match request.params {
        None => failure(request.id, INVALID_PARAMS as int, "Invalid params"@),
        Some(params) => match tool_name(params) {
            None => failure(request.id, INVALID_PARAMS as int, "Tool name required"@),
            Some(name) => if name == "echo"@ {
                success(request.id, echo_result(params))
            } else {
                failure(request.id, METHOD_NOT_FOUND as int, "Tool not found"@)
            },
        },
    }
}

/// The answer of a server whose registry holds `tools` to `request`.
/// The method name is matched exactly.
pub open spec fn respond(tools: Seq<ToolModel>, request: RequestModel) -> ResponseModel {
    if request.method == "initialize"@ {
        success(request.id, initialize_result())
    } else if request.method == "tools/list"@ {
        success(request.id, tools_list_result(tools))
    } else if request.method == "tools/call"@ {
        call_response(request)
    } else {
        failure(request.id, METHOD_NOT_FOUND as int, "Method not found"@)
    }
}

/// One member of a JSON object.
fn member(key: &str, value: JsonValue) -> (m: (String, JsonValue))
    ensures
        m.0@ == key@,
        m.1@ == value@,
{
    (key.to_owned(), value)
}

/// A response with a result.
fn success_response(id: Option<JsonValue>, result: JsonValue) -> (response: McpResponse)
    ensures
        response@ == success(optional_view(id), result@),
{
    McpResponse { jsonrpc: "2.0".to_owned(), id, result: Some(result), error: None }
}

/// A response with an error.
fn failure_response(id: Option<JsonValue>, code: i32, message: &str) -> (response: McpResponse)
    ensures
        response@ == failure(optional_view(id), code as int, message@),
{
    McpResponse {
        jsonrpc: "2.0".to_owned(),
        id,
        result: None,
        error: Some(McpError { code, message: message.to_owned(), data: None }),
    }
}

/// Builds the input schema of the `echo` tool.
fn build_echo_schema() -> (schema: JsonValue)
    ensures
        schema@ == echo_schema(),
{
    let mut text: Vec<(String, JsonValue)> = Vec::new();
    text.push(member("type", JsonValue::text("string")));
    text.push(member("description", JsonValue::text("Text to echo back")));
    let text = JsonValue::object(text);
    assert(text@->Object_0 =~= seq![
        ("type"@, Json::String("string"@)),
        ("description"@, Json::String("Text to echo back"@)),
    ]);

    let mut properties: Vec<(String, JsonValue)> = Vec::new();
    properties.push(member("text", text));
    let properties = JsonValue::object(properties);
    assert(properties@->Object_0 =~= seq![("text"@, text@)]);

    let mut required: Vec<JsonValue> = Vec::new();
    required.push(JsonValue::text("text"));
    let required = JsonValue::array(required);
    assert(required@->Array_0 =~= seq![Json::String("text"@)]);

    let mut schema: Vec<(String, JsonValue)> = Vec::new();
    schema.push(member("type", JsonValue::text("object")));
    schema.push(member("properties", properties));
    schema.push(member("required", required));
    let schema = JsonValue::object(schema);
    assert(schema@->Object_0 =~= seq![
        ("type"@, Json::String("object"@)),
        ("properties"@, properties@),
        ("required"@, required@),
    ]);
    schema
}

/// The server: a registry of tools and the three handlers.
pub struct McpServer {
    tools: ToolRegistry,
}

impl View for McpServer {
    type V = Seq<ToolModel>;

    /// The registered tool descriptors, in registration order.
    closed spec fn view(&self) -> Seq<ToolModel> {
        self.tools@
    }
}

impl McpServer {
    /// A server whose registry holds the built-in `echo` tool and
    /// nothing else.
    pub fn new() -> (server: Self)
        ensures
            server@ == seq![echo_tool()],
    {
        let mut server = Self { tools: ToolRegistry::new() };
        server.register_example_tool();
        assert(server@ =~= seq![echo_tool()]);
        server
    }

    /// Registers the `echo` tool.
    fn register_example_tool(&mut self)
        ensures
            final(self)@ == registered(old(self)@, echo_tool()),
            distinct_names(old(self)@) ==> distinct_names(final(self)@),
    {
        let tool = Tool {
            name: "echo".to_owned(),
            description: "Echo back the input text".to_owned(),
            input_schema: build_echo_schema(),
        };
        self.tools.register(tool);
    }

    /// The registry of this server.
    pub fn tools(&self) -> (registry: &ToolRegistry)
        ensures
            registry@ == self@,
    {
        &self.tools
    }

    /// Answers one request. Every failure is reported inside the
    /// response; the id of the request is handed back as it came.
    pub fn handle_request(&self, request: McpRequest) -> (response: McpResponse)
        ensures
            response@ == respond(self@, request@),
            response@.id == request@.id,
            response@.jsonrpc == "2.0"@,
            response@.has_one_outcome(),
    {
        if text_eq(request.method.as_str(), "initialize") {
            self.handle_initialize(request)
        } else if text_eq(request.method.as_str(), "tools/list") {
            self.handle_tools_list(request)
        } else if text_eq(request.method.as_str(), "tools/call") {
            self.handle_tools_call(request)
        } else {
            failure_response(request.id, METHOD_NOT_FOUND, "Method not found")
        }
    }

    /// Answers one message that arrived as a JSON value: reads the
    /// request from it and writes the response as a JSON object. `None`
    /// where the message holds no request; nothing is answered then.
    pub fn handle_message(&self, message: &JsonValue) -> (reply: Option<JsonValue>)
        ensures
            match request_of_json(message@) {
                Some(request) => reply matches Some(r) && r@ == response_json(
                    respond(self@, request),
                ),
                None => reply is None,
            },
    {
        match McpRequest::from_json(message) {
            Some(request) => Some(self.handle_request(request).to_json()),
            None => None,
        }
    }

    /// Answers `initialize` with the fixed document; the parameters are
    /// not looked at.
    fn handle_initialize(&self, request: McpRequest) -> (response: McpResponse)
        ensures
            response@ == success(request@.id, initialize_result()),
    {
        let tools = JsonValue::object(Vec::new());
        assert(tools@->Object_0 =~= seq![]);

        let mut capabilities: Vec<(String, JsonValue)> = Vec::new();
        capabilities.push(member("tools", tools));
        let capabilities = JsonValue::object(capabilities);
        assert(capabilities@->Object_0 =~= seq![("tools"@, tools@)]);

        let mut server_info: Vec<(String, JsonValue)> = Vec::new();
        server_info.push(member("name", JsonValue::text("mcp-server")));
        server_info.push(member("version", JsonValue::text("0.1.0")));
        let server_info = JsonValue::object(server_info);
        assert(server_info@->Object_0 =~= seq![
            ("name"@, Json::String("mcp-server"@)),
            ("version"@, Json::String("0.1.0"@)),
        ]);

        let mut document: Vec<(String, JsonValue)> = Vec::new();
        document.push(member("protocolVersion", JsonValue::text("2024-11-05")));
        document.push(member("capabilities", capabilities));
        document.push(member("serverInfo", server_info));
        let document = JsonValue::object(document);
        assert(document@->Object_0 =~= seq![
            ("protocolVersion"@, Json::String("2024-11-05"@)),
            ("capabilities"@, capabilities@),
            ("serverInfo"@, server_info@),
        ]);
        success_response(request.id, document)
    }

    /// Answers `tools/list` with every registered tool.
    fn handle_tools_list(&self, request: McpRequest) -> (response: McpResponse)
        ensures
            response@ == success(request@.id, tools_list_result(self@)),
    {
        let tools = self.tools.list();
        let mut entries: Vec<JsonValue> = Vec::new();
        let mut i: usize = 0;
        while i < tools.len()
            invariant
                i <= tools@.len(),
                entries@.len() == i,
                forall|j: int| 0 <= j < i ==> entries@[j]@ == tool_json(tools@[j]@),
            decreases tools@.len() - i,
        {
            entries.push(tools[i].to_json());
            i += 1;
        }
        let entries = JsonValue::array(entries);
        assert(entries@->Array_0 =~= Seq::new(self@.len(), |i: int| tool_json(self@[i])));

        let mut document: Vec<(String, JsonValue)> = Vec::new();
        document.push(member("tools", entries));
        let document = JsonValue::object(document);
        assert(document@->Object_0 =~= seq![("tools"@, entries@)]);
        success_response(request.id, document)
    }

    /// Answers `tools/call`.
    fn handle_tools_call(&self, request: McpRequest) -> (response: McpResponse)
        ensures
            response@ == call_response(request@),
    {
        let params = match request.params {
            Some(params) => params,
            None => {
                return failure_response(request.id, INVALID_PARAMS, "Invalid params");
            },
        };
        let tool_name = match params.get("name") {
            Some(JsonValue::String(name)) => name,
            _ => {
                return failure_response(request.id, INVALID_PARAMS, "Tool name required");
            },
        };
        if text_eq(tool_name.as_str(), "echo") {
            let text = match params.get("arguments") {
                Some(arguments) => match arguments.get("text") {
                    Some(text) => text.as_str(),
                    None => None,
                },
                None => None,
            };
            let text = match text {
                Some(text) => text,
                None => "No text provided",
            };
            let mut message = "Echo: ".to_owned();
            message.append(text);

            let mut item: Vec<(String, JsonValue)> = Vec::new();
            item.push(member("type", JsonValue::text("text")));
            item.push(member("text", JsonValue::String(message)));
            let item = JsonValue::object(item);
            assert(item@->Object_0 =~= seq![
                ("type"@, Json::String("text"@)),
                ("text"@, Json::String("Echo: "@ + echo_text(params@))),
            ]);

            let mut content: Vec<JsonValue> = Vec::new();
            content.push(item);
            let content = JsonValue::array(content);
            assert(content@->Array_0 =~= seq![item@]);

            let mut document: Vec<(String, JsonValue)> = Vec::new();
            document.push(member("content", content));
            let document = JsonValue::object(document);
            assert(document@->Object_0 =~= seq![("content"@, content@)]);
            success_response(request.id, document)
        } else {
            failure_response(request.id, METHOD_NOT_FOUND, "Tool not found")
        }
    }
}

} // verus!
