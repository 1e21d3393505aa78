//! One step of the line transport: what to do with what was read.

use crate::json::{Json, JsonValue};
use crate::protocol::ToolModel;
use crate::server::{respond, McpServer};
use crate::wire::{request_of_json, response_json};
use vstd::prelude::*;

verus! {

/// What one read from the input gave.
#[derive(Debug)]
pub enum Input {
    /// The input has ended.
    End,
    /// The read failed.
    ReadFailed,
    /// A line that holds nothing but white space.
    Blank,
    /// A line that is not JSON.
    Malformed,
    /// A line that holds this JSON value.
    Message(JsonValue),
}

/// What the transport does next.
#[derive(Debug)]
pub enum Action {
    /// End the session.
    Stop,
    /// Report the failed read on the diagnostic channel and end the
    /// session.
    ReportAndStop,
    /// Read the next line.
    Skip,
    /// Report the line on the diagnostic channel, write nothing and read
    /// the next line.
    ReportAndSkip,
    /// Write this response as one line and read the next line.
    Reply(JsonValue),
}

/// The model of an input.
pub enum InputModel {
    End,
    ReadFailed,
    Blank,
    Malformed,
    Message(Json),
}

/// The model of an action.
pub enum ActionModel {
    Stop,
    ReportAndStop,
    Skip,
    ReportAndSkip,
    Reply(Json),
}

impl View for Input {
    type V = InputModel;

    open spec fn view(&self) -> InputModel {
        match self {
            Input::End => InputModel::End,
            Input::ReadFailed => InputModel::ReadFailed,
            Input::Blank => InputModel::Blank,
            Input::Malformed => InputModel::Malformed,
            Input::Message(v) => InputModel::Message(v@),
        }
    }
}

impl View for Action {
    type V = ActionModel;

    open spec fn view(&self) -> ActionModel {
        match self {
            Action::Stop => ActionModel::Stop,
            Action::ReportAndStop => ActionModel::ReportAndStop,
            Action::Skip => ActionModel::Skip,
            Action::ReportAndSkip => ActionModel::ReportAndSkip,
            Action::Reply(v) => ActionModel::Reply(v@),
        }
    }
}

impl ActionModel {
    /// Whether the session ends with this action.
    pub open spec fn ends_session(self) -> bool {
        self is Stop || self is ReportAndStop
    }
}

/// The action that follows an input, for a server whose registry holds
/// `tools`. The session ends with the input or with a failed read. A
/// blank line is passed over. A line that is not JSON, or whose JSON
/// holds no request, is reported and gets no response. Every request
/// gets its response.
pub open spec fn action_for(tools: Seq<ToolModel>, input: InputModel) -> ActionModel {
    match input {
        InputModel::End => ActionModel::Stop,
        InputModel::ReadFailed => ActionModel::ReportAndStop,
        InputModel::Blank => ActionModel::Skip,
        InputModel::Malformed => ActionModel::ReportAndSkip,
        InputModel::Message(message) => match request_of_json(message) {
            Some(request) => ActionModel::Reply(response_json(respond(tools, request))),
            None => ActionModel::ReportAndSkip,
        },
    }
}

/// Only the end of the input or a failed read ends the session.
pub proof fn lemma_session_ends(tools: Seq<ToolModel>, input: InputModel)
    ensures
        action_for(tools, input).ends_session() <==> (input is End || input is ReadFailed),
{
}

impl Action {
    /// Whether the session ends with this action.
    pub fn ends_session(&self) -> (ends: bool)
        ensures
            ends == self@.ends_session(),
    {
        match self {
            Action::Stop => true,
            Action::ReportAndStop => true,
            _ => false,
        }
    }
}

/// Decides what the transport does with what it read.
pub fn next_action(server: &McpServer, input: Input) -> (action: Action)
    ensures
        action@ == action_for(server@, input@),
{
    match input {
        Input::End => Action::Stop,
        Input::ReadFailed => Action::ReportAndStop,
        Input::Blank => Action::Skip,
        Input::Malformed => Action::ReportAndSkip,
        Input::Message(message) => match server.handle_message(&message) {
            Some(reply) => Action::Reply(reply),
            None => Action::ReportAndSkip,
        },
    }
}

} // verus!
