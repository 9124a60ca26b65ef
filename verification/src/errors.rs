//! The errors that the operations of this crate return.
//!
//! Each layer has its own closed set of errors. An error of a lower layer
//! becomes one of a higher layer through `From`, variant for variant.

use vstd::prelude::*;
use vstd::std_specs::convert::FromSpecImpl;

verus! {

/// Why a completion could not be had.
#[derive(Debug, PartialEq, Eq)]
pub enum CompletionError {
    /// The server could not be reached, answered with a status outside 2xx,
    /// or answered without a `content` field.
    Api { issue: String },
    /// The body of the answer was not the JSON that was expected.
    Parsing { issue: String },
}

/// A [`CompletionError`] as the contracts see it.
pub enum CompletionErrorView {
    Api { issue: Seq<char> },
    Parsing { issue: Seq<char> },
}

impl CompletionErrorView {
    /// The text by which the error presents itself.
    pub open spec fn message(self) -> Seq<char> {
        match self {
            CompletionErrorView::Api { issue } => api_prefix() + issue,
            CompletionErrorView::Parsing { issue } => parsing_prefix() + issue,
        }
    }
}

/// What the message of every `Api` error starts with.
pub open spec fn api_prefix() -> Seq<char> {
    "ApiError: An error occurred related to calling llama.cpp: "@
}

/// What the message of every `Parsing` error starts with.
pub open spec fn parsing_prefix() -> Seq<char> {
    "ParsingError: "@
}

impl View for CompletionError {
    type V = CompletionErrorView;

    open spec fn view(&self) -> CompletionErrorView {
        match self {
            CompletionError::Api { issue } => CompletionErrorView::Api { issue: issue@ },
            CompletionError::Parsing { issue } => CompletionErrorView::Parsing { issue: issue@ },
        }
    }
}

impl CompletionError {
    /// The text by which the error presents itself.
    pub fn to_string(&self) -> (text: String)
        ensures
            text@ == self@.message(),
    {
        match self {
            CompletionError::Api { issue } => {
                let mut text = "ApiError: An error occurred related to calling llama.cpp: ".to_owned();
                text.append(issue.as_str());
                text
            },
            CompletionError::Parsing { issue } => {
                let mut text = "ParsingError: ".to_owned();
                text.append(issue.as_str());
                text
            },
        }
    }
}

/// Why a tool box did not run a call that was handed to it: the call named no
/// tool of the box, or it did not have the shape of a call.
#[derive(Debug, PartialEq, Eq)]
pub enum ToolBoxError {
    FunctionNotFound { function_name: String },
    Parsing { issue: String },
}

/// Why a function call could not be made.
#[derive(Debug, PartialEq, Eq)]
pub enum FunctionCallError {
    /// The model asked for a function that the tool box does not hold.
    FunctionNotFound { function_name: String },
    /// As [`CompletionError::Api`].
    Api { issue: String },
    /// The answer, or the call that the model wrote, was not the JSON that
    /// was expected.
    Parsing { issue: String },
}

/// A [`FunctionCallError`] as the contracts see it.
pub enum FunctionCallErrorView {
    FunctionNotFound { function_name: Seq<char> },
    Api { issue: Seq<char> },
    Parsing { issue: Seq<char> },
}

impl FunctionCallErrorView {
    /// The text by which the error presents itself.
    pub open spec fn message(self) -> Seq<char> {
        match self {
            FunctionCallErrorView::FunctionNotFound { function_name } => "The function with name `"@
                + function_name + "` was not found in the toolbox"@,
            FunctionCallErrorView::Api { issue } => api_prefix() + issue,
            FunctionCallErrorView::Parsing { issue } => parsing_prefix() + issue,
        }
    }
}

impl View for FunctionCallError {
    type V = FunctionCallErrorView;

    open spec fn view(&self) -> FunctionCallErrorView {
        match self {
            FunctionCallError::FunctionNotFound { function_name } => FunctionCallErrorView::FunctionNotFound {
                function_name: function_name@,
            },
            FunctionCallError::Api { issue } => FunctionCallErrorView::Api { issue: issue@ },
            FunctionCallError::Parsing { issue } => FunctionCallErrorView::Parsing { issue: issue@ },
        }
    }
}

impl FunctionCallError {
    /// The text by which the error presents itself.
    pub fn to_string(&self) -> (text: String)
        ensures
            text@ == self@.message(),
    {
        match self {
            FunctionCallError::FunctionNotFound { function_name } => {
                let mut text = "The function with name `".to_owned();
                text.append(function_name.as_str());
                text.append("` was not found in the toolbox");
                text
            },
            FunctionCallError::Api { issue } => {
                let mut text = "ApiError: An error occurred related to calling llama.cpp: ".to_owned();
                text.append(issue.as_str());
                text
            },
            FunctionCallError::Parsing { issue } => {
                let mut text = "ParsingError: ".to_owned();
                text.append(issue.as_str());
                text
            },
        }
    }
}

impl From<CompletionError> for FunctionCallError {
    fn from(error: CompletionError) -> (r: Self) {
        match error {
            CompletionError::Api { issue } => FunctionCallError::Api { issue },
            CompletionError::Parsing { issue } => FunctionCallError::Parsing { issue },
        }
    }
}

impl FromSpecImpl<CompletionError> for FunctionCallError {
    open spec fn obeys_from_spec() -> bool {
        true
    }

    open spec fn from_spec(error: CompletionError) -> Self {
        match error {
            CompletionError::Api { issue } => FunctionCallError::Api { issue },
            CompletionError::Parsing { issue } => FunctionCallError::Parsing { issue },
        }
    }
}

impl From<ToolBoxError> for FunctionCallError {
    fn from(error: ToolBoxError) -> (r: Self) {
        match error {
            ToolBoxError::FunctionNotFound { function_name } => FunctionCallError::FunctionNotFound {
                function_name,
            },
            ToolBoxError::Parsing { issue } => FunctionCallError::Parsing { issue },
        }
    }
}

impl FromSpecImpl<ToolBoxError> for FunctionCallError {
    open spec fn obeys_from_spec() -> bool {
        true
    }

    open spec fn from_spec(error: ToolBoxError) -> Self {
        match error {
            ToolBoxError::FunctionNotFound { function_name } => FunctionCallError::FunctionNotFound {
                function_name,
            },
            ToolBoxError::Parsing { issue } => FunctionCallError::Parsing { issue },
        }
    }
}

/// Why an item of a completion stream is an error.
#[derive(Debug, PartialEq, Eq)]
pub enum CompletionStreamError {
    /// The data of one frame was not the JSON that was expected.
    Deserialization(String),
    /// The transport failed.
    SSE(String),
}

/// A [`CompletionStreamError`] as the contracts see it.
pub enum CompletionStreamErrorView {
    Deserialization(Seq<char>),
    SSE(Seq<char>),
}

impl View for CompletionStreamError {
    type V = CompletionStreamErrorView;

    open spec fn view(&self) -> CompletionStreamErrorView {
        match self {
            CompletionStreamError::Deserialization(issue) => CompletionStreamErrorView::Deserialization(
                issue@,
            ),
            CompletionStreamError::SSE(issue) => CompletionStreamErrorView::SSE(issue@),
        }
    }
}

impl CompletionStreamErrorView {
    /// The text by which the error presents itself.
    pub open spec fn message(self) -> Seq<char> {
        match self {
            CompletionStreamErrorView::Deserialization(issue) => issue,
            CompletionStreamErrorView::SSE(issue) => issue,
        }
    }
}

impl CompletionStreamError {
    /// The text by which the error presents itself.
    pub fn to_string(&self) -> (text: String)
        ensures
            text@ == self@.message(),
    {
        match self {
            CompletionStreamError::Deserialization(issue) => issue.clone(),
            CompletionStreamError::SSE(issue) => issue.clone(),
        }
    }
}

} // verus!
