//! A plain completion: one request, one answer, one text.

use vstd::prelude::*;
use crate::errors::{CompletionError, CompletionErrorView};
use crate::link::Request;
use crate::response::{decode, decoded_view, CompletionResponse, Envelope};
use crate::transport::{
    decimal, is_success, push_status_line, status_is_success, status_line, unknown_status,
    HttpReply, HttpReplyView,
};

verus! {

/// What is wrong with an answer whose envelope has no `content`.
pub open spec fn no_content() -> Seq<char> {
    "no content"@
}

/// What is wrong with an answer whose status is no success.
pub open spec fn http_error(status: u16, reason: Option<Seq<char>>) -> Seq<char> {
    "HTTP Error: "@ + status_line(status, reason)
}

/// The outcome of a completion, as the contracts see it.
pub open spec fn completion_view(outcome: Result<String, CompletionError>) -> Result<
    Seq<char>,
    CompletionErrorView,
> {
    match outcome {
        Ok(text) => Ok(text@),
        Err(error) => Err(error@),
    }
}

/// What the body of a successful answer comes to, once it was read as an
/// envelope: its `content`. A body that is no envelope is a parsing error
/// with the issue that reading it gave; an envelope without `content` is an
/// API error with the issue [`no_content`].
pub open spec fn content_of(decoded: Result<Envelope, Seq<char>>) -> Result<Seq<char>, CompletionErrorView> {
    match decoded {
        Err(issue) => Err(CompletionErrorView::Parsing { issue }),
        Ok(envelope) => match envelope.content {
            Some(text) => Ok(text),
            None => Err(CompletionErrorView::Api { issue: no_content() }),
        },
    }
}

/// What a reply comes to.
///
/// No answer is an API error with the transport's issue. An answer whose
/// status is no success is an API error that shows the status, whatever the
/// body holds. Else the body decides, as [`content_of`] says.
pub open spec fn completion_outcome(reply: HttpReplyView) -> Result<Seq<char>, CompletionErrorView> {
    match reply {
        HttpReplyView::Failed { issue } => Err(CompletionErrorView::Api { issue }),
        HttpReplyView::Response { status, reason, body } => {
            if !status_is_success(status) {
                Err(CompletionErrorView::Api { issue: http_error(status, reason) })
            } else {
                content_of(decode(body))
            }
        },
    }
}

/// An answer whose status is no success is an API error that shows the
/// status, and the body has no say in it.
pub proof fn lemma_status_outside_2xx(status: u16, reason: Option<Seq<char>>, body: Seq<char>)
    requires
        !status_is_success(status),
    ensures
        completion_outcome(HttpReplyView::Response { status, reason, body }) == Err::<
            Seq<char>,
            CompletionErrorView,
        >(CompletionErrorView::Api { issue: "HTTP Error: "@ + status_line(status, reason) }),
        status_line(status, reason) == decimal(status as nat) + " "@ + match reason {
            Some(phrase) => phrase,
            None => unknown_status(),
        },
{
}

/// A completion that has been started: its request is to be sent, and the
/// reply handed to [`finish`](CompletionCall::finish).
pub struct CompletionCall {
    pub request: Request,
}

impl CompletionCall {
    /// The completion that an envelope, or the failure to read one, comes to.
    pub fn content(decoded: Result<CompletionResponse, String>) -> (outcome: Result<String, CompletionError>)
        ensures
            completion_view(outcome) == content_of(decoded_view(decoded)),
    {
        match decoded {
            Err(issue) => Err(CompletionError::Parsing { issue }),
            Ok(response) => match response.content {
                Some(text) => Ok(text),
                None => Err(CompletionError::Api { issue: "no content".to_owned() }),
            },
        }
    }

    /// The completion that the reply to the request comes to.
    pub fn finish(self, reply: HttpReply) -> (outcome: Result<String, CompletionError>)
        ensures
            completion_view(outcome) == completion_outcome(reply@),
    {
        match reply {
            HttpReply::Failed { issue } => Err(CompletionError::Api { issue }),
            HttpReply::Response { status, reason, body } => {
                if !is_success(status) {
                    let mut issue = "HTTP Error: ".to_owned();
                    push_status_line(&mut issue, status, &reason);
                    Err(CompletionError::Api { issue })
                } else {
                    CompletionCall::content(CompletionResponse::parse(body.as_str()))
                }
            },
        }
    }
}

} // verus!
