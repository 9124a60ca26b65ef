//! A function call: the model is asked to answer with JSON that fits the
//! schema of a tool box, the answer is read as a call, and the tool box runs
//! it.
//!
//! Running the call is the tool box's part. This crate says what is sent,
//! what is handed to the tool box, and what the tool box's verdict comes to.

use vstd::prelude::*;
use serde_json::Value;
use vstd::std_specs::convert::FromSpec;
use crate::errors::{FunctionCallError, FunctionCallErrorView, ToolBoxError};
use crate::json::{json_parse, json_view, parse, Json};
use crate::link::Request;
use crate::response::{decode, decoded_view, CompletionResponse, Envelope};
use crate::transport::{
    is_success, push_status_line, status_is_success, status_line, HttpReply, HttpReplyView,
};

verus! {

/// What came of handing a call to the tool box, and the raw input used for
/// the function call.
///
/// `output_result` is the function's own result, success or failure, where
/// the tool box ran it, and the tool box's error where it did not.
/// `raw_input` is kept either way.
pub struct FunctionCallContext<O, E> {
    pub output_result: Result<Result<O, E>, FunctionCallError>,
    pub raw_input: String,
}

/// A call as the model wrote it: the text of its answer, and the JSON value
/// that the text denotes, which is what the tool box is handed.
pub struct ToolCall {
    pub raw_input: String,
    pub function_call: Value,
}

/// A [`ToolCall`] as the contracts see it.
pub struct ToolCallView {
    pub raw_input: Seq<char>,
    pub function_call: Json,
}

impl View for ToolCall {
    type V = ToolCallView;

    open spec fn view(&self) -> ToolCallView {
        ToolCallView { raw_input: self.raw_input@, function_call: json_view(self.function_call) }
    }
}

/// The outcome of reading a call, as the contracts see it.
pub open spec fn tool_call_view(outcome: Result<ToolCall, FunctionCallError>) -> Result<
    ToolCallView,
    FunctionCallErrorView,
> {
    match outcome {
        Ok(call) => Ok(call@),
        Err(error) => Err(error@),
    }
}

/// The outcome of looking for the text of a call, as the contracts see it.
pub open spec fn raw_call_view(outcome: Result<String, FunctionCallError>) -> Result<
    Seq<char>,
    FunctionCallErrorView,
> {
    match outcome {
        Ok(text) => Ok(text@),
        Err(error) => Err(error@),
    }
}

/// The outcome of parsing a text as JSON, as the contracts see it.
pub open spec fn parsed_view(parsed: Result<Value, String>) -> Result<Json, Seq<char>> {
    match parsed {
        Ok(value) => Ok(json_view(value)),
        Err(message) => Err(message@),
    }
}

/// What is wrong with an answer whose envelope has no `content`.
pub open spec fn no_content_field() -> Seq<char> {
    "No `content` field in response body"@
}

/// What is wrong with an answer whose `content` is not JSON.
pub open spec fn not_json() -> Seq<char> {
    "Could not parse tool call response into valid json"@
}

/// What is wrong with an answer whose status is no success.
pub open spec fn http_error_calling(status: u16, reason: Option<Seq<char>>) -> Seq<char> {
    "HTTP Error Calling: "@ + status_line(status, reason)
}

/// The call that a text comes to, once it was parsed as JSON: the text as it
/// stands, with the value it denotes. A text that is not JSON is a parsing
/// error; it is neither mended nor tried again.
pub open spec fn call_of(raw_input: Seq<char>, parsed: Result<Json, Seq<char>>) -> Result<
    ToolCallView,
    FunctionCallErrorView,
> {
    match parsed {
        Ok(json) => Ok(ToolCallView { raw_input, function_call: json }),
        Err(_) => Err(FunctionCallErrorView::Parsing { issue: not_json() }),
    }
}

/// The text in which the model wrote its call: the `content` of the
/// envelope. A body that is no envelope is a parsing error with the issue
/// that reading it gave; an envelope without `content` is an API error.
pub open spec fn raw_call_of(decoded: Result<Envelope, Seq<char>>) -> Result<
    Seq<char>,
    FunctionCallErrorView,
> {
    match decoded {
        Err(issue) => Err(FunctionCallErrorView::Parsing { issue }),
        Ok(envelope) => match envelope.content {
            Some(text) => Ok(text),
            None => Err(FunctionCallErrorView::Api { issue: no_content_field() }),
        },
    }
}

/// What a reply comes to.
///
/// No answer is an API error with the transport's issue. An answer whose
/// status is no success is an API error that shows the status, whatever the
/// body holds. Else the body is read as an envelope, and its `content` as
/// JSON.
pub open spec fn tool_call_outcome(reply: HttpReplyView) -> Result<ToolCallView, FunctionCallErrorView> {
    match reply {
        HttpReplyView::Failed { issue } => Err(FunctionCallErrorView::Api { issue }),
        HttpReplyView::Response { status, reason, body } => {
            if !status_is_success(status) {
                Err(FunctionCallErrorView::Api { issue: http_error_calling(status, reason) })
            } else {
                match raw_call_of(decode(body)) {
                    Err(error) => Err(error),
                    Ok(text) => call_of(text, json_parse(text)),
                }
            }
        },
    }
}

impl ToolCall {
    /// The call that a text and the outcome of parsing it come to.
    pub fn from_parsed(raw_input: String, parsed: Result<Value, String>) -> (outcome: Result<
        ToolCall,
        FunctionCallError,
    >)
        ensures
            tool_call_view(outcome) == call_of(raw_input@, parsed_view(parsed)),
    {
        match parsed {
            Ok(function_call) => Ok(ToolCall { raw_input, function_call }),
            Err(_) => Err(
                FunctionCallError::Parsing {
                    issue: "Could not parse tool call response into valid json".to_owned(),
                },
            ),
        }
    }

    /// The text in which the model wrote its call, from the envelope of the
    /// answer or the failure to read one.
    pub fn raw_input_of(decoded: Result<CompletionResponse, String>) -> (outcome: Result<
        String,
        FunctionCallError,
    >)
        ensures
            raw_call_view(outcome) == raw_call_of(decoded_view(decoded)),
    {
        match decoded {
            Err(issue) => Err(FunctionCallError::Parsing { issue }),
            Ok(response) => match response.content {
                Some(text) => Ok(text),
                None => Err(
                    FunctionCallError::Api { issue: "No `content` field in response body".to_owned() },
                ),
            },
        }
    }
}

/// A function call that has been started: its request is to be sent, and
/// the reply handed to [`finish`](FunctionCall::finish).
pub struct FunctionCall {
    pub request: Request,
}

impl FunctionCall {
    /// The call that the reply to the request comes to: what the tool box is
    /// to be handed, with the text it was read from.
    pub fn finish(self, reply: HttpReply) -> (outcome: Result<ToolCall, FunctionCallError>)
        ensures
            tool_call_view(outcome) == tool_call_outcome(reply@),
    {
        match reply {
            HttpReply::Failed { issue } => Err(FunctionCallError::Api { issue }),
            HttpReply::Response { status, reason, body } => {
                if !is_success(status) {
                    let mut issue = "HTTP Error Calling: ".to_owned();
                    push_status_line(&mut issue, status, &reason);
                    Err(FunctionCallError::Api { issue })
                } else {
                    match ToolCall::raw_input_of(CompletionResponse::parse(body.as_str())) {
                        Err(error) => Err(error),
                        Ok(text) => {
                            let parsed = parse(text.as_str());
                            ToolCall::from_parsed(text, parsed)
                        },
                    }
                }
            },
        }
    }
}

/// What the tool box's verdict comes to: the function's own result as it is,
/// or the tool box's error as the error of the call that it stands for.
pub open spec fn verdict_of<O, E>(verdict: Result<Result<O, E>, ToolBoxError>) -> Result<
    Result<O, E>,
    FunctionCallError,
> {
    match verdict {
        Ok(output) => Ok(output),
        Err(error) => Err(FunctionCallError::from_spec(error)),
    }
}

impl<O, E> FunctionCallContext<O, E> {
    /// What the tool box's verdict on a call comes to.
    ///
    /// The text that the call was read from is kept whatever the verdict.
    /// Where the tool box ran the function, the function's own result,
    /// success or failure, is passed on as it is. Where it did not, its error
    /// becomes the error of the call.
    pub fn new(raw_input: String, verdict: Result<Result<O, E>, ToolBoxError>) -> (outcome: Self)
        ensures
            outcome.raw_input == raw_input,
            outcome.output_result == verdict_of(verdict),
    {
        let output_result = match verdict {
            Ok(output) => Ok(output),
            Err(error) => Err(FunctionCallError::from(error)),
        };
        FunctionCallContext { output_result, raw_input }
    }
}

} // verus!
