//! The JSON form of requests, responses, error objects and tool
//! descriptors: how each is written as a JSON object, and how the first
//! three are read back from one.

use crate::json::{lemma_lookup_first, optional_view, Json, JsonNumber, JsonValue};
use crate::protocol::{
    ErrorModel, McpError, McpRequest, McpResponse, RequestModel, ResponseModel, Tool, ToolModel,
};
use vstd::prelude::*;
use vstd::string::*;

verus! {

/// An optional value as it is written: an absent one as `null`.
pub open spec fn optional_json(value: Option<Json>) -> Json {
    match value {
        Some(v) => v,
        None => Json::Null,
    }
}

/// An optional member as it is read: a missing member and `null` both
/// stand for an absent value.
pub open spec fn optional_member(object: Json, key: Seq<char>) -> Option<Json> {
    match object.get(key) {
        Some(Json::Null) => None,
        Some(v) => Some(v),
        None => None,
    }
}

/// A member that must be a string.
pub open spec fn text_member(object: Json, key: Seq<char>) -> Option<Seq<char>> {
    match object.get(key) {
        Some(v) => v.as_text(),
        None => None,
    }
}

/// An error code as a JSON number.
pub open spec fn code_json(code: int) -> Json {
    if code >= 0 {
        Json::Number(JsonNumber::PosInt(code as u64))
    } else {
        Json::Number(JsonNumber::NegInt(code as i64))
    }
}

/// The error code that a JSON value holds: an integer within the range
/// of `i32`.
pub open spec fn code_of_json(value: Json) -> Option<int> {
    match value {
        Json::Number(JsonNumber::PosInt(n)) => if n <= i32::MAX {
            Some(n as int)
        } else {
            None
        },
        Json::Number(JsonNumber::NegInt(n)) => if i32::MIN <= n <= i32::MAX {
            Some(n as int)
        } else {
            None
        },
        _ => None,
    }
}

/// A request as a JSON object.
pub open spec fn request_json(request: RequestModel) -> Json {
    Json::Object(
        seq![
            ("jsonrpc"@, Json::String(request.jsonrpc)),
            ("id"@, optional_json(request.id)),
            ("method"@, Json::String(request.method)),
            ("params"@, optional_json(request.params)),
        ],
    )
}

/// The request that a JSON value holds: `jsonrpc` and `method` must be
/// strings, `id` and `params` may be missing, other members are
/// ignored.
pub open spec fn request_of_json(value: Json) -> Option<RequestModel> {
    match (text_member(value, "jsonrpc"@), text_member(value, "method"@)) {
        (Some(jsonrpc), Some(method)) => Some(
            RequestModel {
                jsonrpc,
                id: optional_member(value, "id"@),
                method,
                params: optional_member(value, "params"@),
            },
        ),
        _ => None,
    }
}

/// An error object as a JSON object.
pub open spec fn error_json(error: ErrorModel) -> Json {
    Json::Object(
        seq![
            ("code"@, code_json(error.code)),
            ("message"@, Json::String(error.message)),
            ("data"@, optional_json(error.data)),
        ],
    )
}

/// The error object that a JSON value holds: `code` must be an integer
/// that fits `i32`, `message` a string; `data` may be missing.
pub open spec fn error_of_json(value: Json) -> Option<ErrorModel> {
    let code = match value.get("code"@) {
        Some(code) => code_of_json(code),
        None => None,
    };
    match (code, text_member(value, "message"@)) {
        (Some(code), Some(message)) => Some(
            ErrorModel { code, message, data: optional_member(value, "data"@) },
        ),
        _ => None,
    }
}

/// A response as a JSON object.
pub open spec fn response_json(response: ResponseModel) -> Json {
    Json::Object(
        seq![
            ("jsonrpc"@, Json::String(response.jsonrpc)),
            ("id"@, optional_json(response.id)),
            ("result"@, optional_json(response.result)),
            (
                "error"@,
                match response.error {
                    Some(e) => error_json(e),
                    None => Json::Null,
                },
            ),
        ],
    )
}

/// The response that a JSON value holds: `jsonrpc` must be a string;
/// `id`, `result` and `error` may be missing; an `error` that is
/// there must hold an error object.
pub open spec fn response_of_json(value: Json) -> Option<ResponseModel> {
    match text_member(value, "jsonrpc"@) {
        Some(jsonrpc) => match optional_member(value, "error"@) {
            None => Some(
                ResponseModel {
                    jsonrpc,
                    id: optional_member(value, "id"@),
                    result: optional_member(value, "result"@),
                    error: None,
                },
            ),
            Some(e) => match error_of_json(e) {
                Some(error) => Some(
                    ResponseModel {
                        jsonrpc,
                        id: optional_member(value, "id"@),
                        result: optional_member(value, "result"@),
                        error: Some(error),
                    },
                ),
                None => None,
            },
        },
        None => None,
    }
}

/// A tool descriptor as a JSON object.
pub open spec fn tool_json(tool: ToolModel) -> Json {
    Json::Object(
        seq![
            ("name"@, Json::String(tool.name)),
            ("description"@, Json::String(tool.description)),
            ("input_schema"@, tool.input_schema),
        ],
    )
}

/// The member names of the three objects differ from one another.
proof fn lemma_member_names_differ()
    ensures
        "jsonrpc"@ != "id"@,
        "jsonrpc"@ != "method"@,
        "jsonrpc"@ != "params"@,
        "jsonrpc"@ != "result"@,
        "jsonrpc"@ != "error"@,
        "id"@ != "method"@,
        "id"@ != "params"@,
        "id"@ != "result"@,
        "id"@ != "error"@,
        "method"@ != "params"@,
        "result"@ != "error"@,
        "code"@ != "message"@,
        "code"@ != "data"@,
        "message"@ != "data"@,
{
    reveal_strlit("jsonrpc");
    reveal_strlit("id");
    reveal_strlit("method");
    reveal_strlit("params");
    reveal_strlit("result");
    reveal_strlit("error");
    reveal_strlit("code");
    reveal_strlit("message");
    reveal_strlit("data");
    assert("jsonrpc"@.len() == 7 && "message"@.len() == 7);
    assert("method"@.len() == 6 && "params"@.len() == 6 && "result"@.len() == 6);
    assert("error"@.len() == 5);
    assert("code"@.len() == 4 && "data"@.len() == 4);
    assert("id"@.len() == 2);
    assert("method"@[0] != "params"@[0]);
    assert("code"@[0] != "data"@[0]);
}

/// A member that holds an optional value.
fn optional_entry(key: &str, value: &Option<JsonValue>) -> (m: (String, JsonValue))
    ensures
        m.0@ == key@,
        m.1@ == optional_json(optional_view(*value)),
{
    let value = match value {
        Some(v) => v.clone(),
        None => JsonValue::Null,
    };
    (key.to_owned(), value)
}

/// A member that holds a string.
fn text_entry(key: &str, text: &String) -> (m: (String, JsonValue))
    ensures
        m.0@ == key@,
        m.1@ == Json::String(text@),
{
    (key.to_owned(), JsonValue::String(text.clone()))
}

/// Reads an optional member.
fn read_optional(object: &JsonValue, key: &str) -> (value: Option<JsonValue>)
    ensures
        optional_view(value) == optional_member(object@, key@),
{
    match object.get(key) {
        Some(JsonValue::Null) => None,
        Some(v) => Some(v.clone()),
        None => None,
    }
}

/// Reads a member that must be a string.
fn read_text(object: &JsonValue, key: &str) -> (text: Option<String>)
    ensures
        text matches Some(s) ==> text_member(object@, key@) == Some(s@),
        text is None ==> text_member(object@, key@) is None,
{
    match object.get(key) {
        Some(JsonValue::String(s)) => Some(s.clone()),
        _ => None,
    }
}

/// Reads an error code.
fn read_code(value: &JsonValue) -> (code: Option<i32>)
    ensures
        code matches Some(c) ==> code_of_json(value@) == Some(c as int),
        code is None ==> code_of_json(value@) is None,
{
    match value {
        JsonValue::Number(JsonNumber::PosInt(n)) => {
            if *n <= 2147483647 {
                Some(*n as i32)
            } else {
                None
            }
        },
        JsonValue::Number(JsonNumber::NegInt(n)) => {
            if -2147483648 <= *n && *n <= 2147483647 {
                Some(*n as i32)
            } else {
                None
            }
        },
        _ => None,
    }
}

impl McpRequest {
    /// Writes the request as a JSON object.
    pub fn to_json(&self) -> (value: JsonValue)
        ensures
            value@ == request_json(self@),
    {
        let mut members: Vec<(String, JsonValue)> = Vec::new();
        members.push(text_entry("jsonrpc", &self.jsonrpc));
        members.push(optional_entry("id", &self.id));
        members.push(text_entry("method", &self.method));
        members.push(optional_entry("params", &self.params));
        let value = JsonValue::object(members);
        assert(value@->Object_0 =~= request_json(self@)->Object_0);
        value
    }

    /// Reads a request from a JSON value; `None` where the value does
    /// not hold one.
    pub fn from_json(value: &JsonValue) -> (request: Option<McpRequest>)
        ensures
            request matches Some(r) ==> request_of_json(value@) == Some(r@),
            request is None ==> request_of_json(value@) is None,
    {
        let jsonrpc = match read_text(value, "jsonrpc") {
            Some(s) => s,
            None => {
                return None;
            },
        };
        let method = match read_text(value, "method") {
            Some(s) => s,
            None => {
                return None;
            },
        };
        Some(
            McpRequest {
                jsonrpc,
                id: read_optional(value, "id"),
                method,
                params: read_optional(value, "params"),
            },
        )
    }
}

impl McpError {
    /// Writes the error object as a JSON object.
    pub fn to_json(&self) -> (value: JsonValue)
        ensures
            value@ == error_json(self@),
    {
        let code = if self.code >= 0 {
            JsonValue::Number(JsonNumber::PosInt(self.code as u64))
        } else {
            JsonValue::Number(JsonNumber::NegInt(self.code as i64))
        };
        let mut members: Vec<(String, JsonValue)> = Vec::new();
        members.push(("code".to_owned(), code));
        members.push(text_entry("message", &self.message));
        members.push(optional_entry("data", &self.data));
        let value = JsonValue::object(members);
        assert(value@->Object_0 =~= error_json(self@)->Object_0);
        value
    }

    /// Reads an error object from a JSON value; `None` where the value
    /// does not hold one.
    pub fn from_json(value: &JsonValue) -> (error: Option<McpError>)
        ensures
            error matches Some(e) ==> error_of_json(value@) == Some(e@),
            error is None ==> error_of_json(value@) is None,
    {
        let code = match value.get("code") {
            Some(code) => match read_code(code) {
                Some(c) => c,
                None => {
                    return None;
                },
            },
            None => {
                return None;
            },
        };
        let message = match read_text(value, "message") {
            Some(s) => s,
            None => {
                return None;
            },
        };
        Some(McpError { code, message, data: read_optional(value, "data") })
    }
}

impl McpResponse {
    /// Writes the response as a JSON object.
    pub fn to_json(&self) -> (value: JsonValue)
        ensures
            value@ == response_json(self@),
    {
        let error = match &self.error {
            Some(e) => e.to_json(),
            None => JsonValue::Null,
        };
        let mut members: Vec<(String, JsonValue)> = Vec::new();
        members.push(text_entry("jsonrpc", &self.jsonrpc));
        members.push(optional_entry("id", &self.id));
        members.push(optional_entry("result", &self.result));
        members.push(("error".to_owned(), error));
        let value = JsonValue::object(members);
        assert(value@->Object_0 =~= response_json(self@)->Object_0);
        value
    }

    /// Reads a response from a JSON value; `None` where the value does
    /// not hold one.
    pub fn from_json(value: &JsonValue) -> (response: Option<McpResponse>)
        ensures
            response matches Some(r) ==> response_of_json(value@) == Some(r@),
            response is None ==> response_of_json(value@) is None,
    {
        let jsonrpc = match read_text(value, "jsonrpc") {
            Some(s) => s,
            None => {
                return None;
            },
        };
        let error = match value.get("error") {
            Some(JsonValue::Null) => None,
            Some(e) => match McpError::from_json(e) {
                Some(error) => Some(error),
                None => {
                    return None;
                },
            },
            None => None,
        };
        Some(
            McpResponse {
                jsonrpc,
                id: read_optional(value, "id"),
                result: read_optional(value, "result"),
                error,
            },
        )
    }
}

impl Tool {
    /// Writes the descriptor as a JSON object.
    pub fn to_json(&self) -> (value: JsonValue)
        ensures
            value@ == tool_json(self@),
    {
        let mut members: Vec<(String, JsonValue)> = Vec::new();
        members.push(text_entry("name", &self.name));
        members.push(text_entry("description", &self.description));
        members.push(("input_schema".to_owned(), self.input_schema.clone()));
        let value = JsonValue::object(members);
        assert(value@->Object_0 =~= tool_json(self@)->Object_0);
        value
    }
}

/// Writing a request and reading it back gives the same request,
/// provided that neither `id` nor `params` is a present `null`: a
/// written `null` reads back as an absent value.
pub proof fn lemma_request_round_trip(request: RequestModel)
    requires
        request.id != Some(Json::Null),
        request.params != Some(Json::Null),
    ensures
        request_of_json(request_json(request)) == Some(request),
{
    lemma_member_names_differ();
    let members = request_json(request)->Object_0;
    lemma_lookup_first(members, "jsonrpc"@, 0);
    lemma_lookup_first(members, "id"@, 1);
    lemma_lookup_first(members, "method"@, 2);
    lemma_lookup_first(members, "params"@, 3);
}

/// Writing an error object and reading it back gives the same error
/// object, provided that its code fits `i32` and `data` is not a
/// present `null`.
pub proof fn lemma_error_round_trip(error: ErrorModel)
    requires
        i32::MIN <= error.code <= i32::MAX,
        error.data != Some(Json::Null),
    ensures
        error_of_json(error_json(error)) == Some(error),
{
    lemma_member_names_differ();
    let members = error_json(error)->Object_0;
    lemma_lookup_first(members, "code"@, 0);
    lemma_lookup_first(members, "message"@, 1);
    lemma_lookup_first(members, "data"@, 2);
}

/// Writing a response and reading it back gives the same response,
/// provided that the error code fits `i32` and none of `id`, `result`
/// and the error's `data` is a present `null`.
pub proof fn lemma_response_round_trip(response: ResponseModel)
    requires
        response.id != Some(Json::Null),
        response.result != Some(Json::Null),
        response.error matches Some(e) ==> i32::MIN <= e.code <= i32::MAX && e.data != Some(
            Json::Null,
        ),
    ensures
        response_of_json(response_json(response)) == Some(response),
{
    lemma_member_names_differ();
    let members = response_json(response)->Object_0;
    lemma_lookup_first(members, "jsonrpc"@, 0);
    lemma_lookup_first(members, "id"@, 1);
    lemma_lookup_first(members, "result"@, 2);
    lemma_lookup_first(members, "error"@, 3);
    if let Some(e) = response.error {
        lemma_error_round_trip(e);
    }
}

} // verus!
