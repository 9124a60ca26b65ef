//! Client-side protocol logic for a llama.cpp completion server.
//!
//! The crate does no I/O. It says which request each operation sends, and
//! what the server's reply means: a completion, the fragments of a streamed
//! completion, or a function call for a tool box to run. Whoever owns the
//! connection sends the request and hands back what came of it.
//!
//! - A [`LlamaLink`] holds the address of the endpoint and the base
//!   parameters, and starts each operation: the value it returns holds the
//!   request to send.
//! - A [`CompletionCall`] turns the reply into the completed text.
//! - A [`CompletionStream`] takes the events of a stream one by one and
//!   yields the fragments.
//! - A [`FunctionCall`] turns the reply into the [`ToolCall`] to hand to the
//!   tool box, and a [`FunctionCallContext`] is made of the tool box's verdict.
//! - A [`PromptFormatter`] renders a conversation into the prompt of any of
//!   these.
//!
//! Every function is verified against its contract; what is assumed of
//! `serde_json` is gathered in [`json`].

pub mod completion;
pub mod errors;
pub mod json;
pub mod link;
pub mod prompt;
pub mod response;
pub mod stream;
pub mod tools;
pub mod transport;

pub use completion::CompletionCall;
pub use errors::{CompletionError, CompletionStreamError, FunctionCallError, ToolBoxError};
pub use link::{LlamaLink, Request};
pub use prompt::{Llama3, Message, PromptFormat, PromptFormatter};
pub use response::CompletionResponse;
pub use stream::{CompletionStream, StreamEvent, StreamState};
pub use tools::{FunctionCall, FunctionCallContext, ToolCall};
pub use transport::HttpReply;
