//! The link to one server: where its completion endpoint is, with which
//! parameters it is asked, and the request that each operation sends.

use vstd::prelude::*;
use crate::completion::CompletionCall;
use crate::json::{
    bool_value, clone_object, insert, object_members, object_value, remove, string_value, Json, Object,
};
use crate::prompt::{Message, PromptFormat, PromptFormatter};
use crate::stream::{CompletionStream, CompletionStreamView, StreamState};
use crate::tools::FunctionCall;

verus! {

/// One request: the address to post to, and the JSON object to post.
pub struct Request {
    pub url: String,
    pub body: Object,
}

/// A [`Request`] as the contracts see it.
pub struct RequestView {
    pub url: Seq<char>,
    pub body: Map<Seq<char>, Json>,
}

impl View for Request {
    type V = RequestView;

    open spec fn view(&self) -> RequestView {
        RequestView { url: self.url@, body: object_members(self.body) }
    }
}

/// The base parameters as they go into a request: all but `stream` and
/// `json_schema`, which no base parameter can set. Those two names stand in a
/// request only where the operation itself puts them.
pub open spec fn base_members(config: Map<Seq<char>, Json>) -> Map<Seq<char>, Json> {
    config.remove("stream"@).remove("json_schema"@)
}

/// The body of a completion request: the base parameters, and the prompt
/// under `prompt`, whatever the parameters held under that name.
pub open spec fn completion_body(config: Map<Seq<char>, Json>, prompt: Seq<char>) -> Map<Seq<char>, Json> {
    base_members(config).insert("prompt"@, Json::String(prompt))
}

/// The body of a streaming request: that of a completion request, and `true`
/// under `stream`.
pub open spec fn stream_body(config: Map<Seq<char>, Json>, prompt: Seq<char>) -> Map<Seq<char>, Json> {
    completion_body(config, prompt).insert("stream"@, Json::Bool(true))
}

/// The body of a function call request: that of a completion request, and
/// the schema of the tools, as it stands, under `json_schema`.
pub open spec fn function_call_body(
    config: Map<Seq<char>, Json>,
    prompt: Seq<char>,
    schema: Map<Seq<char>, Json>,
) -> Map<Seq<char>, Json> {
    completion_body(config, prompt).insert("json_schema"@, Json::Object(schema))
}

/// The three names under which a request carries what is not a base
/// parameter are three different names.
pub proof fn lemma_reserved_names_differ()
    ensures
        "prompt"@ != "stream"@,
        "prompt"@ != "json_schema"@,
        "stream"@ != "json_schema"@,
{
    reveal_strlit("prompt");
    reveal_strlit("stream");
    reveal_strlit("json_schema");
    assert("prompt"@[0] == 'p');
    assert("stream"@[0] == 's');
    assert("json_schema"@[0] == 'j');
}

/// A request carries its prompt under `prompt`, whichever operation made it.
/// It carries `stream` if and only if it is a streaming request, and then
/// `true`; it carries `json_schema` if and only if it is a function call
/// request, and then the schema. Whatever the base parameters hold under
/// those three names does not reach it.
pub proof fn lemma_reserved_members(
    config: Map<Seq<char>, Json>,
    prompt: Seq<char>,
    schema: Map<Seq<char>, Json>,
)
    ensures
        completion_body(config, prompt).contains_key("prompt"@),
        completion_body(config, prompt)["prompt"@] == Json::String(prompt),
        !completion_body(config, prompt).contains_key("stream"@),
        !completion_body(config, prompt).contains_key("json_schema"@),
        stream_body(config, prompt).contains_key("prompt"@),
        stream_body(config, prompt)["prompt"@] == Json::String(prompt),
        stream_body(config, prompt).contains_key("stream"@),
        stream_body(config, prompt)["stream"@] == Json::Bool(true),
        !stream_body(config, prompt).contains_key("json_schema"@),
        function_call_body(config, prompt, schema).contains_key("prompt"@),
        function_call_body(config, prompt, schema)["prompt"@] == Json::String(prompt),
        function_call_body(config, prompt, schema).contains_key("json_schema"@),
        function_call_body(config, prompt, schema)["json_schema"@] == Json::Object(schema),
        !function_call_body(config, prompt, schema).contains_key("stream"@),
{
    lemma_reserved_names_differ();
}

/// A base parameter of any other name reaches every request as it was given,
/// and no request holds a member of another name that is no base parameter.
pub proof fn lemma_base_members_carried(
    config: Map<Seq<char>, Json>,
    prompt: Seq<char>,
    schema: Map<Seq<char>, Json>,
    key: Seq<char>,
)
    requires
        key != "prompt"@,
        key != "stream"@,
        key != "json_schema"@,
    ensures
        completion_body(config, prompt).contains_key(key) == config.contains_key(key),
        stream_body(config, prompt).contains_key(key) == config.contains_key(key),
        function_call_body(config, prompt, schema).contains_key(key) == config.contains_key(key),
        config.contains_key(key) ==> {
            &&& completion_body(config, prompt)[key] == config[key]
            &&& stream_body(config, prompt)[key] == config[key]
            &&& function_call_body(config, prompt, schema)[key] == config[key]
        },
{
}

/// The schema that a function call request carries is the schema it was given
/// and nothing else: neither the prompt nor the base parameters touch it. Two
/// requests made with one schema therefore carry the same `json_schema`.
pub proof fn lemma_schema_embedded_as_given(
    config_a: Map<Seq<char>, Json>,
    prompt_a: Seq<char>,
    config_b: Map<Seq<char>, Json>,
    prompt_b: Seq<char>,
    schema: Map<Seq<char>, Json>,
)
    ensures
        function_call_body(config_a, prompt_a, schema).contains_key("json_schema"@),
        function_call_body(config_a, prompt_a, schema)["json_schema"@] == Json::Object(schema),
        function_call_body(config_a, prompt_a, schema)["json_schema"@] == function_call_body(
            config_b,
            prompt_b,
            schema,
        )["json_schema"@],
{
}

/// The link to one server.
pub struct LlamaLink {
    completion_url: String,
    request_config: Object,
}

/// A [`LlamaLink`] as the contracts see it.
pub struct LlamaLinkView {
    pub completion_url: Seq<char>,
    pub request_config: Map<Seq<char>, Json>,
}

impl View for LlamaLink {
    type V = LlamaLinkView;

    closed spec fn view(&self) -> LlamaLinkView {
        LlamaLinkView {
            completion_url: self.completion_url@,
            request_config: object_members(self.request_config),
        }
    }
}

impl LlamaLink {
    /// The link to the server at `url`, asked with the base parameters
    /// `request_config` on every request. What they hold under `prompt`,
    /// `stream` or `json_schema` reaches no request: those names are the
    /// operations' own.
    pub fn new(url: &str, request_config: Object) -> (link: Self)
        ensures
            link@ == (LlamaLinkView {
                completion_url: url@ + "/completion"@,
                request_config: object_members(request_config),
            }),
    {
        let mut completion_url = url.to_owned();
        completion_url.append("/completion");
        LlamaLink { completion_url, request_config }
    }

    /// The address of the completion endpoint.
    pub fn completion_url(&self) -> (url: &str)
        ensures
            url@ == self@.completion_url,
    {
        self.completion_url.as_str()
    }

    /// The base parameters that go with every request.
    pub fn request_config(&self) -> (config: &Object)
        ensures
            object_members(*config) == self@.request_config,
    {
        &self.request_config
    }

    fn request(&self, prompt: String) -> (request: Request)
        ensures
            request@ == (RequestView {
                url: self@.completion_url,
                body: completion_body(self@.request_config, prompt@),
            }),
    {
        let mut body = clone_object(&self.request_config);
        remove(&mut body, "stream");
        remove(&mut body, "json_schema");
        insert(&mut body, "prompt", string_value(prompt));
        Request { url: self.completion_url.clone(), body }
    }

    /// Starts a completion of the prompt that `formatter` renders.
    pub fn create_completion_with_format<F: PromptFormat>(
        &self,
        system: &str,
        messages: &[Message],
        formatter: &PromptFormatter<F>,
    ) -> (call: CompletionCall)
        requires
            formatter.accepts(system@, messages.deep_view()),
        ensures
            call.request@ == (RequestView {
                url: self@.completion_url,
                body: completion_body(
                    self@.request_config,
                    formatter.render(system@, messages.deep_view()),
                ),
            }),
    {
        let prompt = formatter.format(system, messages);
        self.create_completion(prompt)
    }

    /// Starts a completion of `prompt`.
    pub fn create_completion(&self, prompt: String) -> (call: CompletionCall)
        ensures
            call.request@ == (RequestView {
                url: self@.completion_url,
                body: completion_body(self@.request_config, prompt@),
            }),
    {
        CompletionCall { request: self.request(prompt) }
    }

    /// Starts a function call on `prompt`, for a caller that wants only what
    /// the function returned. The request is that of
    /// [`call_function_full`](Self::call_function_full).
    pub fn call_function(
        &self,
        prompt: String,
        schema: &Object,
    ) -> (call: FunctionCall)
        ensures
            call.request@ == (RequestView {
                url: self@.completion_url,
                body: function_call_body(self@.request_config, prompt@, object_members(*schema)),
            }),
    {
        self.call_function_full(prompt, schema)
    }

    /// Starts a function call on the prompt that `formatter` renders, for a
    /// caller that wants only what the function returned.
    pub fn call_function_with_format<F: PromptFormat>(
        &self,
        system: &str,
        messages: &[Message],
        formatter: &PromptFormatter<F>,
        schema: &Object,
    ) -> (call: FunctionCall)
        requires
            formatter.accepts(system@, messages.deep_view()),
        ensures
            call.request@ == (RequestView {
                url: self@.completion_url,
                body: function_call_body(
                    self@.request_config,
                    formatter.render(system@, messages.deep_view()),
                    object_members(*schema),
                ),
            }),
    {
        let prompt = formatter.format(system, messages);
        self.call_function(prompt, schema)
    }

    /// Starts a function call on the prompt that `formatter` renders.
    pub fn call_function_with_format_full<F: PromptFormat>(
        &self,
        system: &str,
        messages: &[Message],
        formatter: &PromptFormatter<F>,
        schema: &Object,
    ) -> (call: FunctionCall)
        requires
            formatter.accepts(system@, messages.deep_view()),
        ensures
            call.request@ == (RequestView {
                url: self@.completion_url,
                body: function_call_body(
                    self@.request_config,
                    formatter.render(system@, messages.deep_view()),
                    object_members(*schema),
                ),
            }),
    {
        let prompt = formatter.format(system, messages);
        self.call_function_full(prompt, schema)
    }

    /// Starts a function call on `prompt`: the model is asked to answer with
    /// JSON that fits `schema`, the schema of the tools on offer.
    pub fn call_function_full(
        &self,
        prompt: String,
        schema: &Object,
    ) -> (call: FunctionCall)
        ensures
            call.request@ == (RequestView {
                url: self@.completion_url,
                body: function_call_body(self@.request_config, prompt@, object_members(*schema)),
            }),
    {
        let mut request = self.request(prompt);
        insert(&mut request.body, "json_schema", object_value(clone_object(schema)));
        FunctionCall { request }
    }

    /// Starts a streamed completion of the prompt that `formatter` renders.
    pub fn create_formatted_completion_stream<F: PromptFormat>(
        &self,
        system: &str,
        messages: &[Message],
        formatter: &PromptFormatter<F>,
    ) -> (stream: CompletionStream)
        requires
            formatter.accepts(system@, messages.deep_view()),
        ensures
            stream@ == (CompletionStreamView {
                request: RequestView {
                    url: self@.completion_url,
                    body: stream_body(
                        self@.request_config,
                        formatter.render(system@, messages.deep_view()),
                    ),
                },
                state: StreamState::Connecting,
            }),
    {
        let prompt = formatter.format(system, messages);
        self.create_completion_stream(prompt)
    }

    /// Starts a streamed completion of `prompt`.
    pub fn create_completion_stream(&self, prompt: String) -> (stream: CompletionStream)
        ensures
            stream@ == (CompletionStreamView {
                request: RequestView {
                    url: self@.completion_url,
                    body: stream_body(self@.request_config, prompt@),
                },
                state: StreamState::Connecting,
            }),
    {
        let mut request = self.request(prompt);
        insert(&mut request.body, "stream", bool_value(true));
        CompletionStream::connecting(request)
    }
}

} // verus!
