//! What the server answers: the envelope of one completion, and how it is
//! read from JSON.

use vstd::prelude::*;
use serde_json::Value;
use crate::json::{as_bool, as_object, as_str, is_null, json_parse, json_view, member, parse, Json};

verus! {

/// The envelope of one completion: the body of a plain answer, and the data
/// of each message of a stream.
#[derive(Debug, PartialEq, Eq)]
pub struct CompletionResponse {
    pub content: Option<String>,
    pub stop: Option<bool>,
}

/// A [`CompletionResponse`] as the contracts see it.
pub struct Envelope {
    pub content: Option<Seq<char>>,
    pub stop: Option<bool>,
}

impl View for CompletionResponse {
    type V = Envelope;

    open spec fn view(&self) -> Envelope {
        Envelope {
            content: match self.content {
                Some(text) => Some(text@),
                None => None,
            },
            stop: self.stop,
        }
    }
}

/// The outcome of reading an envelope, as the contracts see it.
pub open spec fn decoded_view(decoded: Result<CompletionResponse, String>) -> Result<Envelope, Seq<char>> {
    match decoded {
        Ok(response) => Ok(response@),
        Err(issue) => Err(issue@),
    }
}

/// A member may be left out, or be `null`: either way it is not given.
pub open spec fn given(members: Map<Seq<char>, Json>, key: Seq<char>) -> bool {
    members.contains_key(key) && !(members[key] is Null)
}

/// What is wrong with a JSON value that is no envelope.
pub open spec fn not_an_object() -> Seq<char> {
    "the response is not a JSON object"@
}

/// What is wrong with an envelope whose `content` is given and is no string.
pub open spec fn content_not_a_string() -> Seq<char> {
    "the `content` field of the response is not a string"@
}

/// What is wrong with an envelope whose `stop` is given and is no boolean.
pub open spec fn stop_not_a_boolean() -> Seq<char> {
    "the `stop` field of the response is not a boolean"@
}

/// The envelope that a JSON value denotes.
///
/// The value must be an object. Its `content`, where given, must be a string
/// and its `stop`, where given, a boolean; members of other names are passed
/// over. `content` is looked at before `stop`.
pub open spec fn envelope_of(json: Json) -> Result<Envelope, Seq<char>> {
    match json {
        Json::Object(members) => {
            if given(members, "content"@) && !(members["content"@] is String) {
                Err(content_not_a_string())
            } else if given(members, "stop"@) && !(members["stop"@] is Bool) {
                Err(stop_not_a_boolean())
            } else {
                Ok(
                    Envelope {
                        content: if given(members, "content"@) {
                            Some(members["content"@]->String_0)
                        } else {
                            None
                        },
                        stop: if given(members, "stop"@) {
                            Some(members["stop"@]->Bool_0)
                        } else {
                            None
                        },
                    },
                )
            }
        },
        _ => Err(not_an_object()),
    }
}

/// The envelope that a text denotes: the text must be JSON, and the JSON an
/// envelope. A text that is not JSON fails with the parser's own message.
pub open spec fn decode(text: Seq<char>) -> Result<Envelope, Seq<char>> {
    match json_parse(text) {
        Ok(json) => envelope_of(json),
        Err(message) => Err(message),
    }
}

impl CompletionResponse {
    /// Reads an envelope from a JSON value.
    pub fn from_value(value: &Value) -> (decoded: Result<CompletionResponse, String>)
        ensures
            decoded_view(decoded) == envelope_of(json_view(*value)),
    {
        let object = match as_object(value) {
            Some(object) => object,
            None => {
                return Err("the response is not a JSON object".to_owned());
            },
        };
        let content = match member(object, "content") {
            None => None,
            Some(field) => {
                if is_null(field) {
                    None
                } else {
                    match as_str(field) {
                        Some(text) => Some(text.to_owned()),
                        None => {
                            return Err("the `content` field of the response is not a string".to_owned());
                        },
                    }
                }
            },
        };
        let stop = match member(object, "stop") {
            None => None,
            Some(field) => {
                if is_null(field) {
                    None
                } else {
                    match as_bool(field) {
                        Some(flag) => Some(flag),
                        None => {
                            return Err("the `stop` field of the response is not a boolean".to_owned());
                        },
                    }
                }
            },
        };
        Ok(CompletionResponse { content, stop })
    }

    /// Reads an envelope from its text.
    pub fn parse(text: &str) -> (decoded: Result<CompletionResponse, String>)
        ensures
            decoded_view(decoded) == decode(text@),
    {
        match parse(text) {
            Ok(value) => CompletionResponse::from_value(&value),
            Err(message) => Err(message),
        }
    }
}

} // verus!
