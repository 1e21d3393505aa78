//! What holds of every answer of the server.

use crate::json::{lemma_lookup_first, Json};
use crate::protocol::{RequestModel, ToolModel};
use crate::server::{
    echo_result, echo_schema, echo_text, echo_tool, failure, initialize_result, respond, success,
    tools_list_result,
};
use crate::wire::{optional_member, request_of_json, text_member, tool_json};
use vstd::prelude::*;

verus! {

/// The three method names differ from one another.
pub proof fn lemma_method_names_differ()
    ensures
        "initialize"@ != "tools/list"@,
        "initialize"@ != "tools/call"@,
        "tools/list"@ != "tools/call"@,
{
    reveal_strlit("initialize");
    reveal_strlit("tools/list");
    reveal_strlit("tools/call");
    assert("initialize"@[0] != "tools/list"@[0]);
    assert("initialize"@[0] != "tools/call"@[0]);
    assert("tools/list"@[6] != "tools/call"@[6]);
}

/// The response carries the id of the request, and an absent id stays
/// absent.
pub proof fn lemma_id_is_mirrored(tools: Seq<ToolModel>, request: RequestModel)
    ensures
        respond(tools, request).id == request.id,
{
}

/// Every response carries a result or an error, never both and never
/// neither, and names protocol version 2.0.
pub proof fn lemma_one_outcome(tools: Seq<ToolModel>, request: RequestModel)
    ensures
        respond(tools, request).has_one_outcome(),
        respond(tools, request).jsonrpc == "2.0"@,
{
}

/// `initialize` is answered with the same document whatever the
/// parameters are, and the document names protocol version 2024-11-05.
pub proof fn lemma_initialize_is_fixed(tools: Seq<ToolModel>, request: RequestModel)
    requires
        request.method == "initialize"@,
    ensures
        respond(tools, request) == success(request.id, initialize_result()),
        initialize_result().get("protocolVersion"@) == Some(Json::String("2024-11-05"@)),
{
    lemma_lookup_first(initialize_result()->Object_0, "protocolVersion"@, 0);
}

/// A server that holds the built-in tool alone answers `tools/list` with
/// one entry: the tool `echo` with its description and schema.
pub proof fn lemma_tools_list_of_new_server(request: RequestModel)
    requires
        request.method == "tools/list"@,
    ensures
        respond(seq![echo_tool()], request) == success(
            request.id,
            Json::Object(seq![("tools"@, Json::Array(seq![tool_json(echo_tool())]))]),
        ),
        tool_json(echo_tool()).get("name"@) == Some(Json::String("echo"@)),
        tool_json(echo_tool()).get("description"@) == Some(
            Json::String("Echo back the input text"@),
        ),
        tool_json(echo_tool()).get("input_schema"@) == Some(echo_schema()),
{
    lemma_method_names_differ();
    let tools = seq![echo_tool()];
    let entries = tools_list_result(tools)->Object_0[0].1->Array_0;
    assert(entries =~= seq![tool_json(echo_tool())]);
    assert(tools_list_result(tools)->Object_0 =~= seq![
        ("tools"@, Json::Array(seq![tool_json(echo_tool())])),
    ]);
    reveal_strlit("name");
    reveal_strlit("description");
    reveal_strlit("input_schema");
    assert("name"@.len() == 4 && "description"@.len() == 11 && "input_schema"@.len() == 12);
    let members = tool_json(echo_tool())->Object_0;
    lemma_lookup_first(members, "name"@, 0);
    lemma_lookup_first(members, "description"@, 1);
    lemma_lookup_first(members, "input_schema"@, 2);
}

/// A call of `echo` whose arguments hold a string `text` is answered
/// with one content item of type `text` that reads `Echo: ` and then
/// that string.
pub proof fn lemma_echo_with_text(
    tools: Seq<ToolModel>,
    request: RequestModel,
    params: Json,
    arguments: Json,
    text: Seq<char>,
)
    requires
        request.method == "tools/call"@,
        request.params == Some(params),
        params.get("name"@) == Some(Json::String("echo"@)),
        params.get("arguments"@) == Some(arguments),
        arguments.get("text"@) == Some(Json::String(text)),
    ensures
        respond(tools, request) == success(
            request.id,
            Json::Object(
                seq![
                    (
                        "content"@,
                        Json::Array(
                            seq![
                                Json::Object(
                                    seq![
                                        ("type"@, Json::String("text"@)),
                                        ("text"@, Json::String("Echo: "@ + text)),
                                    ],
                                ),
                            ],
                        ),
                    ),
                ],
            ),
        ),
{
    lemma_method_names_differ();
}

/// A call of `echo` without a string `text` among its arguments is
/// answered with `Echo: No text provided`.
pub proof fn lemma_echo_without_text(tools: Seq<ToolModel>, request: RequestModel, params: Json)
    requires
        request.method == "tools/call"@,
        request.params == Some(params),
        params.get("name"@) == Some(Json::String("echo"@)),
        match params.get("arguments"@) {
            Some(arguments) => match arguments.get("text"@) {
                Some(text) => !(text is String),
                None => true,
            },
            None => true,
        },
    ensures
        echo_text(params) == "No text provided"@,
        respond(tools, request) == success(request.id, echo_result(params)),
{
    lemma_method_names_differ();
}

/// A call without parameters is refused: invalid params.
pub proof fn lemma_call_without_params(tools: Seq<ToolModel>, request: RequestModel)
    requires
        request.method == "tools/call"@,
        request.params is None,
    ensures
        respond(tools, request) == failure(request.id, -32602, "Invalid params"@),
{
    lemma_method_names_differ();
}

/// A message whose `params` member is `null` or missing is read as a
/// request without parameters, so a call that arrives in it is refused
/// in the same way.
pub proof fn lemma_call_with_null_params(tools: Seq<ToolModel>, message: Json)
    requires
        text_member(message, "jsonrpc"@) is Some,
        text_member(message, "method"@) == Some("tools/call"@),
        message.get("params"@) is None || message.get("params"@) == Some(Json::Null),
    ensures
        request_of_json(message) matches Some(request) && request.params is None && respond(
            tools,
            request,
        ) == failure(optional_member(message, "id"@), -32602, "Invalid params"@),
{
    lemma_method_names_differ();
}

/// A call whose parameters hold no string `name` is refused: the tool
/// name is required.
pub proof fn lemma_call_without_name(tools: Seq<ToolModel>, request: RequestModel, params: Json)
    requires
        request.method == "tools/call"@,
        request.params == Some(params),
        match params.get("name"@) {
            Some(name) => !(name is String),
            None => true,
        },
    ensures
        respond(tools, request) == failure(request.id, -32602, "Tool name required"@),
{
    lemma_method_names_differ();
}

/// A call of a tool other than `echo` is refused: tool not found.
pub proof fn lemma_call_of_unknown_tool(
    tools: Seq<ToolModel>,
    request: RequestModel,
    params: Json,
    name: Seq<char>,
)
    requires
        request.method == "tools/call"@,
        request.params == Some(params),
        params.get("name"@) == Some(Json::String(name)),
        name != "echo"@,
    ensures
        respond(tools, request) == failure(request.id, -32601, "Tool not found"@),
{
    lemma_method_names_differ();
}

/// A method other than the three known ones is refused: method not
/// found.
pub proof fn lemma_unknown_method(tools: Seq<ToolModel>, request: RequestModel)
    requires
        request.method != "initialize"@,
        request.method != "tools/list"@,
        request.method != "tools/call"@,
    ensures
        respond(tools, request) == failure(request.id, -32601, "Method not found"@),
{
}

} // verus!
