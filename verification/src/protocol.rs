//! The request and response envelopes of the protocol, and the tool
//! descriptor, each with its mathematical model.

use crate::json::{clone_optional, optional_view, Json, JsonValue};
use vstd::prelude::*;

verus! {

/// A request: the protocol version, an optional correlation id, the
/// method name and optional parameters.
#[derive(Debug)]
pub struct McpRequest {
    pub jsonrpc: String,
    pub id: Option<JsonValue>,
    pub method: String,
    pub params: Option<JsonValue>,
}

/// A response: the protocol version, the id of the request it answers,
/// and either a result or an error.
#[derive(Debug)]
pub struct McpResponse {
    pub jsonrpc: String,
    pub id: Option<JsonValue>,
    pub result: Option<JsonValue>,
    pub error: Option<McpError>,
}

/// An error reported in a response.
#[derive(Debug)]
pub struct McpError {
    pub code: i32,
    pub message: String,
    pub data: Option<JsonValue>,
}

/// A tool descriptor: its name, a description for people, and the
/// schema of its input, which is passed through as it is.
#[derive(Debug)]
pub struct Tool {
    pub name: String,
    pub description: String,
    pub input_schema: JsonValue,
}

/// The model of a request.
#[verifier::ext_equal]
pub struct RequestModel {
    pub jsonrpc: Seq<char>,
    pub id: Option<Json>,
    pub method: Seq<char>,
    pub params: Option<Json>,
}

/// The model of an error object.
#[verifier::ext_equal]
pub struct ErrorModel {
    pub code: int,
    pub message: Seq<char>,
    pub data: Option<Json>,
}

/// The model of a response.
#[verifier::ext_equal]
pub struct ResponseModel {
    pub jsonrpc: Seq<char>,
    pub id: Option<Json>,
    pub result: Option<Json>,
    pub error: Option<ErrorModel>,
}

/// The model of a tool descriptor.
#[verifier::ext_equal]
pub struct ToolModel {
    pub name: Seq<char>,
    pub description: Seq<char>,
    pub input_schema: Json,
}

impl View for McpRequest {
    type V = RequestModel;

    open spec fn view(&self) -> RequestModel {
        RequestModel {
            jsonrpc: self.jsonrpc@,
            id: optional_view(self.id),
            method: self.method@,
            params: optional_view(self.params),
        }
    }
}

impl View for McpError {
    type V = ErrorModel;

    open spec fn view(&self) -> ErrorModel {
        ErrorModel { code: self.code as int, message: self.message@, data: optional_view(self.data) }
    }
}

impl View for McpResponse {
    type V = ResponseModel;

    open spec fn view(&self) -> ResponseModel {
        ResponseModel {
            jsonrpc: self.jsonrpc@,
            id: optional_view(self.id),
            result: optional_view(self.result),
            error: match self.error {
                Some(e) => Some(e@),
                None => None,
            },
        }
    }
}

impl View for Tool {
    type V = ToolModel;

    open spec fn view(&self) -> ToolModel {
        ToolModel {
            name: self.name@,
            description: self.description@,
            input_schema: self.input_schema@,
        }
    }
}

impl ResponseModel {
    /// A response carries a result or an error, never both and never
    /// neither.
    pub open spec fn has_one_outcome(self) -> bool {
        self.result is Some <==> self.error is None
    }
}

impl Clone for McpRequest {
    fn clone(&self) -> (copy: Self)
        ensures
            copy@ == self@,
    {
        McpRequest {
            jsonrpc: self.jsonrpc.clone(),
            id: clone_optional(&self.id),
            method: self.method.clone(),
            params: clone_optional(&self.params),
        }
    }
}

impl Clone for McpError {
    fn clone(&self) -> (copy: Self)
        ensures
            copy@ == self@,
    {
        McpError {
            code: self.code,
            message: self.message.clone(),
            data: clone_optional(&self.data),
        }
    }
}

impl Clone for McpResponse {
    fn clone(&self) -> (copy: Self)
        ensures
            copy@ == self@,
    {
        McpResponse {
            jsonrpc: self.jsonrpc.clone(),
            id: clone_optional(&self.id),
            result: clone_optional(&self.result),
            error: match &self.error {
                Some(e) => Some(e.clone()),
                None => None,
            },
        }
    }
}

impl Clone for Tool {
    fn clone(&self) -> (copy: Self)
        ensures
            copy@ == self@,
    {
        Tool {
            name: self.name.clone(),
            description: self.description.clone(),
            input_schema: self.input_schema.clone(),
        }
    }
}

} // verus!
