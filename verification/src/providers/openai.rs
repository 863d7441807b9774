//! The adapter for the OpenAI API and for endpoints that speak its protocol.
//!
//! The adapter does no I/O. It says what to send for a request, and what a
//! status code and a body that came back mean.

use vstd::prelude::*;
use vstd::string::StringExecFns;
use crate::config::{LlmConfig, LlmConfigView, Provider, APP_SITE_NAME, APP_SITE_URL};
use crate::http::{is_success, status_is_success, HttpRequest, HttpRequestView};
use crate::json::{
    array_value, as_object, bool_value, clone_number, error_message, json_of, json_parse,
    json_text, jsons_of, map_insert, map_new, number_of_u64, number_value, object_value,
    parse_text, string_value, to_text, u64_value, JsonValue,
};
use crate::providers::openai_wire::{
    chat_response_of, decode_chat_response, OpenAIChatResponse, OpenAIChatResponseView,
    OpenAIMessage, OpenAIMessageView, OpenAIToolCall, OpenAIToolCallView, OpenAIUsage,
};
use crate::text::{contains, lowercase, occurs_in, str_eq, to_lowercase};
use crate::traits::{
    outcome, CompletionKind, CompletionKindView, CompletionRequest, CompletionRequestView,
    CompletionResponse, CompletionResponseView, ProviderError, ProviderErrorView, TokenUsage,
    Tool, ToolCallRequest, ToolCallRequestView, ToolView,
};
use crate::wire::{
    encode_messages, encode_schema, get_member, get_required_text, member, members,
    messages_json, required_text, schema_json,
};

verus! {

/// The base address of the OpenAI API.
pub const OPENAI_BASE_URL: &'static str = "https://api.openai.com/v1";

/// The adapter for OpenAI-compatible backends.
#[derive(Debug)]
pub struct OpenAIProvider {
    config: LlmConfig,
    api_key: String,
    base_url: String,
}

/// The content of an [`OpenAIProvider`].
pub struct OpenAIProviderView {
    pub config: LlmConfigView,
    pub api_key: Seq<char>,
    pub base_url: Seq<char>,
}

impl View for OpenAIProvider {
    type V = OpenAIProviderView;

    closed spec fn view(&self) -> OpenAIProviderView {
        OpenAIProviderView {
            config: self.config@,
            api_key: self.api_key@,
            base_url: self.base_url@,
        }
    }
}

impl DeepView for OpenAIProvider {
    type V = OpenAIProviderView;

    open spec fn deep_view(&self) -> OpenAIProviderView {
        self@
    }
}

/// The headers of every request, given the base address in lower case: the
/// content type, the credential, and, where the address names the OpenRouter
/// aggregator, the two headers that identify the caller.
pub open spec fn openai_headers_for(api_key: Seq<char>, lowered_base_url: Seq<char>) -> Seq<
    (Seq<char>, Seq<char>),
> {
    let base = seq![
        ("Content-Type"@, "application/json"@),
        ("Authorization"@, "Bearer "@ + api_key),
    ];
    if occurs_in("openrouter"@, lowered_base_url) {
        base.push(("HTTP-Referer"@, APP_SITE_URL@)).push(("X-Title"@, APP_SITE_NAME@))
    } else {
        base
    }
}

/// The headers of every request: the content type, the credential, and for
/// the OpenRouter aggregator, in whatever case the address names it, the two
/// headers that identify the caller.
pub open spec fn openai_headers(p: OpenAIProviderView) -> Seq<(Seq<char>, Seq<char>)> {
    openai_headers_for(p.api_key, lowercase(p.base_url))
}

/// The address of the chat-completion endpoint under a base address.
pub open spec fn chat_completions_url(base_url: Seq<char>) -> Seq<char> {
    base_url + "/chat/completions"@
}

/// How a tool is offered to the backend: `{type: "function", function: {name,
/// description, parameters}}`.
pub open spec fn openai_tool_json(t: ToolView) -> JsonValue {
    JsonValue::Object(
        Map::empty().insert("type"@, JsonValue::String("function"@)).insert(
            "function"@,
            JsonValue::Object(
                Map::empty().insert("name"@, JsonValue::String(t.name)).insert(
                    "description"@,
                    JsonValue::String(t.description),
                ).insert("parameters"@, schema_json(t.parameters)),
            ),
        ),
    )
}

/// How the tools of a request are offered: one entry for each tool, in order.
pub open spec fn openai_tools_json(tools: Seq<ToolView>) -> JsonValue {
    JsonValue::Array(Seq::new(tools.len(), |i: int| openai_tool_json(tools[i])))
}

/// The body of a chat-completion request: the model, the messages and the
/// stream flag, with the temperature and the token limit where the request
/// sets them, and with the tools and `tool_choice: "auto"` where it names
/// tools.
pub open spec fn chat_request_json(req: CompletionRequestView, stream: bool) -> JsonValue {
    let base = Map::empty().insert("model"@, JsonValue::String(req.model)).insert(
        "messages"@,
        messages_json(req.messages),
    ).insert("stream"@, JsonValue::Bool(stream));
    let with_temperature = match req.temperature {
        Some(n) => base.insert("temperature"@, JsonValue::Number(n)),
        None => base,
    };
    let with_limit = match req.max_tokens {
        Some(n) => with_temperature.insert(
            "max_tokens"@,
            JsonValue::Number(number_of_u64(n as u64)),
        ),
        None => with_temperature,
    };
    let with_tools = match req.tools {
        Some(tools) => with_limit.insert("tools"@, openai_tools_json(tools)).insert(
            "tool_choice"@,
            JsonValue::String("auto"@),
        ),
        None => with_limit,
    };
    JsonValue::Object(with_tools)
}

/// The failed completion that reports a status and a message.
pub open spec fn api_failure(status: u16, message: Seq<char>) -> Result<
    CompletionResponseView,
    ProviderErrorView,
> {
    Err(ProviderErrorView::ApiError { status, message })
}

/// The request to send, given the JSON to carry: an error where the provider
/// is not configured for OpenAI or the JSON has no text.
pub open spec fn openai_request(p: OpenAIProviderView, body: JsonValue) -> Result<
    HttpRequestView,
    ProviderErrorView,
> {
    openai_request_carrying(p, json_text(body))
}

/// The request to send, given the text of its body: an error where the
/// provider is not configured for OpenAI or there is no text.
pub open spec fn openai_request_carrying(p: OpenAIProviderView, body: Option<Seq<char>>) -> Result<
    HttpRequestView,
    ProviderErrorView,
> {
    if p.config.provider != Provider::OpenAI {
        Err(ProviderErrorView::ConfigError("Invalid provider configured for OpenAIProvider"@))
    } else {
        match body {
            Some(text) => Ok(
                HttpRequestView {
                    url: chat_completions_url(p.base_url),
                    headers: openai_headers(p),
                    body: text,
                },
            ),
            None => Err(ProviderErrorView::RequestError("Failed to encode the request body"@)),
        }
    }
}

/// What to send for a completion that does not stream.
pub open spec fn openai_completion_request(p: OpenAIProviderView, req: CompletionRequestView) -> Result<
    HttpRequestView,
    ProviderErrorView,
> {
    openai_request(p, chat_request_json(req, false))
}

/// What to send for a completion that streams: nothing where the request
/// names tools, which this adapter does not stream.
pub open spec fn openai_stream_request(p: OpenAIProviderView, req: CompletionRequestView) -> Result<
    HttpRequestView,
    ProviderErrorView,
> {
    if req.tools is Some {
        Err(
            ProviderErrorView::Unsupported(
                "Streaming tool calls are not currently supported by the OpenAI provider implementation."@,
            ),
        )
    } else {
        openai_request(p, chat_request_json(req, true))
    }
}

/// The message of an error envelope, `{error: {message}}`.
pub open spec fn envelope_message(j: JsonValue) -> Option<Seq<char>> {
    match members(j) {
        Some(m) => match member(m, "error"@) {
            Some(e) => match members(e) {
                Some(detail) => required_text(detail, "message"@),
                None => None,
            },
            None => None,
        },
        None => None,
    }
}

/// The message of a failed call: the message of the backend's error envelope
/// where the body is one, the whole body otherwise.
pub open spec fn openai_error_message(body: Seq<char>) -> Seq<char> {
    match json_parse(body) {
        Ok(j) => match envelope_message(j) {
            Some(m) => m,
            None => body,
        },
        Err(_) => body,
    }
}

/// The error that a status stands for, if it is not a success.
pub open spec fn openai_status_error(status: u16, body: Seq<char>) -> Option<ProviderErrorView> {
    if is_success(status) {
        None
    } else {
        Some(ProviderErrorView::ApiError { status, message: openai_error_message(body) })
    }
}

/// The usage in normalized form.
pub open spec fn usage_mapped(usage: Option<OpenAIUsage>) -> Option<TokenUsage> {
    match usage {
        Some(u) => Some(
            TokenUsage {
                prompt_tokens: u.prompt_tokens,
                completion_tokens: u.completion_tokens,
                total_tokens: u.total_tokens,
            },
        ),
        None => None,
    }
}

/// A tool call in normalized form: a call of kind `"function"`.
pub open spec fn tool_call_mapped(c: OpenAIToolCallView) -> ToolCallRequestView {
    ToolCallRequestView { id: c.id, tool_type: "function"@, function: c.function }
}

/// The tool calls in normalized form, in order.
pub open spec fn tool_calls_mapped(calls: Seq<OpenAIToolCallView>) -> Seq<ToolCallRequestView> {
    Seq::new(calls.len(), |i: int| tool_call_mapped(calls[i]))
}

/// What a message is: tool calls where it carries any, whatever else it
/// carries; else its text; else, where the model stopped in order to call
/// tools, no calls; else empty text.
pub open spec fn completion_kind_of(
    message: OpenAIMessageView,
    finish_reason: Option<Seq<char>>,
) -> CompletionKindView {
    match message.tool_calls {
        Some(calls) => CompletionKindView::ToolCall { tool_calls: tool_calls_mapped(calls) },
        None => match message.content {
            Some(content) => CompletionKindView::Message { content },
            None => if finish_reason == Some("tool_calls"@) {
                CompletionKindView::ToolCall { tool_calls: Seq::empty() }
            } else {
                CompletionKindView::Message { content: Seq::empty() }
            },
        },
    }
}

/// The completion that a response holds: that of its first choice, and an
/// error where it has no choice.
pub open spec fn completion_of_response(resp: OpenAIChatResponseView) -> Result<
    CompletionResponseView,
    ProviderErrorView,
> {
    if resp.choices.len() == 0 {
        Err(ProviderErrorView::ParseError("No choices found in OpenAI response"@))
    } else {
        Ok(
            CompletionResponseView {
                kind: completion_kind_of(resp.choices[0].message, resp.choices[0].finish_reason),
                usage: usage_mapped(resp.usage),
                finish_reason: resp.choices[0].finish_reason,
            },
        )
    }
}

/// The completion that a JSON body holds.
pub open spec fn completion_of_json(j: JsonValue) -> Result<
    CompletionResponseView,
    ProviderErrorView,
> {
    match chat_response_of(j) {
        Some(resp) => completion_of_response(resp),
        None => Err(
            ProviderErrorView::ParseError("OpenAI response does not have the expected shape"@),
        ),
    }
}

/// What a status and a body mean: an API error for a status that is not a
/// success, a parse error for a body that is not JSON, and else the completion
/// that the body holds.
pub open spec fn openai_completion(status: u16, body: Seq<char>) -> Result<
    CompletionResponseView,
    ProviderErrorView,
> {
    match openai_status_error(status, body) {
        Some(e) => Err(e),
        None => match json_parse(body) {
            Ok(j) => completion_of_json(j),
            Err(msg) => Err(ProviderErrorView::ParseError(msg)),
        },
    }
}

impl OpenAIProvider {
    /// The adapter for `config`. The configuration must hold an API key; the
    /// base address defaults to that of the OpenAI API.
    pub fn new(config: LlmConfig) -> (r: Self)
        requires
            config@.api_key is Some,
        ensures
            r@ == (OpenAIProviderView {
                config: config@,
                api_key: config@.api_key->0,
                base_url: match config@.base_url {
                    Some(u) => u,
                    None => OPENAI_BASE_URL@,
                },
            }),
    {
        let api_key = match &config.api_key {
            Some(k) => k.clone(),
            None => String::new(),
        };
        let base_url = match &config.base_url {
            Some(u) => u.clone(),
            None => OPENAI_BASE_URL.to_owned(),
        };
        OpenAIProvider { config, api_key, base_url }
    }

    /// The headers of every request.
    pub fn build_headers(&self) -> (r: Vec<(String, String)>)
        ensures
            r.deep_view() == openai_headers(self@),
    {
        let lowered = to_lowercase(self.base_url.as_str());
        self.headers_for(lowered.as_str())
    }

    /// The headers of every request, given the base address in lower case.
    pub fn headers_for(&self, lowered_base_url: &str) -> (r: Vec<(String, String)>)
        ensures
            r.deep_view() == openai_headers_for(self@.api_key, lowered_base_url@),
    {
        let mut headers: Vec<(String, String)> = Vec::new();
        headers.push(("Content-Type".to_owned(), "application/json".to_owned()));
        let mut bearer = "Bearer ".to_owned();
        bearer.append(self.api_key.as_str());
        headers.push(("Authorization".to_owned(), bearer));
        if contains(lowered_base_url, "openrouter") {
            headers.push(("HTTP-Referer".to_owned(), APP_SITE_URL.to_owned()));
            headers.push(("X-Title".to_owned(), APP_SITE_NAME.to_owned()));
        }
        assert(headers.deep_view() =~= openai_headers_for(self@.api_key, lowered_base_url@));
        headers
    }

    /// The address of the chat-completion endpoint.
    pub fn endpoint(&self) -> (r: String)
        ensures
            r@ == chat_completions_url(self@.base_url),
    {
        let mut url = self.base_url.clone();
        url.append("/chat/completions");
        url
    }

    /// Writes the tools of a request as the backend expects them.
    pub fn map_tools_to_openai(tools: Option<&Vec<Tool>>) -> (r: Option<serde_json::Value>)
        ensures
            match tools {
                Some(ts) => r matches Some(v) && json_of(v) == openai_tools_json(ts.deep_view()),
                None => r is None,
            },
    {
        match tools {
            Some(ts) => {
                let mut out: Vec<serde_json::Value> = Vec::new();
                let mut i: usize = 0;
                while i < ts.len()
                    invariant
                        i <= ts@.len(),
                        out@.len() == i,
                        forall|j: int|
                            0 <= j < i ==> json_of(#[trigger] out@[j]) == openai_tool_json(
                                ts@[j]@,
                            ),
                    decreases ts@.len() - i,
                {
                    let tool = &ts[i];
                    let mut function = map_new();
                    map_insert(&mut function, "name".to_owned(), string_value(tool.name.clone()));
                    map_insert(
                        &mut function,
                        "description".to_owned(),
                        string_value(tool.description.clone()),
                    );
                    map_insert(
                        &mut function,
                        "parameters".to_owned(),
                        encode_schema(&tool.parameters),
                    );
                    let mut entry = map_new();
                    map_insert(&mut entry, "type".to_owned(), string_value("function".to_owned()));
                    map_insert(&mut entry, "function".to_owned(), object_value(function));
                    out.push(object_value(entry));
                    i = i + 1;
                }
                assert(jsons_of(out@) =~= Seq::new(
                    ts.deep_view().len(),
                    |i: int| openai_tool_json(ts.deep_view()[i]),
                ));
                Some(array_value(out))
            },
            None => None,
        }
    }

    /// The usage in normalized form.
    pub fn map_usage(usage: Option<OpenAIUsage>) -> (r: Option<TokenUsage>)
        ensures
            r == usage_mapped(usage),
    {
        match usage {
            Some(u) => Some(
                TokenUsage {
                    prompt_tokens: u.prompt_tokens,
                    completion_tokens: u.completion_tokens,
                    total_tokens: u.total_tokens,
                },
            ),
            None => None,
        }
    }

    /// The tool calls in normalized form.
    pub fn map_tool_calls(tool_calls: Vec<OpenAIToolCall>) -> (r: Vec<ToolCallRequest>)
        ensures
            r.deep_view() == tool_calls_mapped(tool_calls.deep_view()),
    {
        let mut out: Vec<ToolCallRequest> = Vec::new();
        let mut i: usize = 0;
        while i < tool_calls.len()
            invariant
                i <= tool_calls@.len(),
                out@.len() == i,
                forall|j: int|
                    0 <= j < i ==> (#[trigger] out@[j])@ == tool_call_mapped(tool_calls@[j]@),
            decreases tool_calls@.len() - i,
        {
            let call = &tool_calls[i];
            out.push(
                ToolCallRequest {
                    id: call.id.clone(),
                    tool_type: "function".to_owned(),
                    function: call.function.clone(),
                },
            );
            i = i + 1;
        }
        assert(out.deep_view() =~= tool_calls_mapped(tool_calls.deep_view()));
        out
    }

    /// Decides what a message is. Tool calls take precedence over text.
    pub fn determine_completion_kind(message: OpenAIMessage, finish_reason: Option<&str>) -> (r:
        CompletionKind)
        ensures
            r@ == completion_kind_of(message@, finish_reason.deep_view()),
            message@.tool_calls is Some ==> r@ is ToolCall,
    {
        match message.tool_calls {
            Some(tool_calls) => CompletionKind::ToolCall {
                tool_calls: Self::map_tool_calls(tool_calls),
            },
            None => match message.content {
                Some(content) => CompletionKind::Message { content },
                None => {
                    let wants_tools = match finish_reason {
                        Some(reason) => str_eq(reason, "tool_calls"),
                        None => false,
                    };
                    if wants_tools {
                        let r = CompletionKind::ToolCall { tool_calls: Vec::new() };
                        assert(r@->tool_calls =~= Seq::empty());
                        r
                    } else {
                        let r = CompletionKind::Message { content: String::new() };
                        r
                    }
                },
            },
        }
    }

    /// Writes the body of a chat-completion request.
    pub fn encode_request(request: &CompletionRequest, stream: bool) -> (r: serde_json::Value)
        ensures
            json_of(r) == chat_request_json(request@, stream),
    {
        let mut body = map_new();
        map_insert(&mut body, "model".to_owned(), string_value(request.model.clone()));
        map_insert(&mut body, "messages".to_owned(), encode_messages(&request.messages));
        map_insert(&mut body, "stream".to_owned(), bool_value(stream));
        match &request.temperature {
            Some(n) => {
                map_insert(&mut body, "temperature".to_owned(), number_value(clone_number(n)));
            },
            None => {},
        }
        match request.max_tokens {
            Some(n) => {
                map_insert(&mut body, "max_tokens".to_owned(), u64_value(n as u64));
            },
            None => {},
        }
        match Self::map_tools_to_openai(request.tools.as_ref()) {
            Some(tools) => {
                map_insert(&mut body, "tools".to_owned(), tools);
                map_insert(&mut body, "tool_choice".to_owned(), string_value("auto".to_owned()));
            },
            None => {},
        }
        object_value(body)
    }

    fn request_with(&self, body: &serde_json::Value) -> (r: Result<HttpRequest, ProviderError>)
        ensures
            outcome(r) == openai_request(self@, json_of(*body)),
    {
        self.request_carrying(to_text(body))
    }

    /// The request that carries `body`, the text of a request body, or nothing
    /// where the body could not be written. Fails where the adapter's
    /// configuration names another provider, and where there is no body.
    pub fn request_carrying(&self, body: Option<String>) -> (r: Result<HttpRequest, ProviderError>)
        ensures
            outcome(r) == openai_request_carrying(self@, body.deep_view()),
    {
        if self.config.provider != Provider::OpenAI {
            return Err(
                ProviderError::ConfigError(
                    "Invalid provider configured for OpenAIProvider".to_owned(),
                ),
            );
        }
        match body {
            Some(text) => Ok(
                HttpRequest { url: self.endpoint(), headers: self.build_headers(), body: text },
            ),
            None => Err(
                ProviderError::RequestError("Failed to encode the request body".to_owned()),
            ),
        }
    }

    /// What to send for `request` when the answer is wanted in one piece. Fails
    /// where the adapter's configuration names another provider.
    pub fn completion_request(&self, request: &CompletionRequest) -> (r: Result<
        HttpRequest,
        ProviderError,
    >)
        ensures
            outcome(r) == openai_completion_request(self@, request@),
    {
        let body = Self::encode_request(request, false);
        self.request_with(&body)
    }

    /// What to send for `request` when the answer is to be streamed. Fails
    /// where the request names tools, and where the adapter's configuration
    /// names another provider.
    pub fn stream_request(&self, request: &CompletionRequest) -> (r: Result<
        HttpRequest,
        ProviderError,
    >)
        ensures
            outcome(r) == openai_stream_request(self@, request@),
    {
        if request.tools.is_some() {
            return Err(
                ProviderError::Unsupported(
                    "Streaming tool calls are not currently supported by the OpenAI provider implementation.".to_owned(),
                ),
            );
        }
        let body = Self::encode_request(request, true);
        self.request_with(&body)
    }

    /// Reads the message of an error envelope.
    pub fn read_envelope_message(v: &serde_json::Value) -> (r: Option<String>)
        ensures
            r.deep_view() == envelope_message(json_of(*v)),
    {
        let m = as_object(v)?;
        let e = get_member(m, "error")?;
        let detail = as_object(e)?;
        get_required_text(detail, "message")
    }

    /// The message of a failed call with the given body.
    pub fn error_message_of(body: &str) -> (r: String)
        ensures
            r@ == openai_error_message(body@),
    {
        match parse_text(body) {
            Ok(v) => match Self::read_envelope_message(&v) {
                Some(m) => m,
                None => body.to_owned(),
            },
            Err(_) => body.to_owned(),
        }
    }

    /// The error that `status` stands for, if it is not a success. `body` is
    /// the body that came with it.
    pub fn check_status(status: u16, body: &str) -> (r: Option<ProviderError>)
        ensures
            r.deep_view() == openai_status_error(status, body@),
    {
        if status_is_success(status) {
            None
        } else {
            Some(ProviderError::ApiError { status, message: Self::error_message_of(body) })
        }
    }

    /// The completion that a decoded response holds.
    pub fn completion_from_response(response: OpenAIChatResponse) -> (r: Result<
        CompletionResponse,
        ProviderError,
    >)
        ensures
            outcome(r) == completion_of_response(response@),
    {
        let mut choices = response.choices;
        if choices.len() == 0 {
            return Err(
                ProviderError::ParseError("No choices found in OpenAI response".to_owned()),
            );
        }
        let first = choices.remove(0);
        let usage = Self::map_usage(response.usage);
        let finish_reason = first.finish_reason;
        let kind = match &finish_reason {
            Some(reason) => Self::determine_completion_kind(first.message, Some(reason.as_str())),
            None => Self::determine_completion_kind(first.message, None),
        };
        Ok(CompletionResponse { kind, usage, finish_reason })
    }

    /// The completion that a JSON body holds.
    pub fn completion_from_json(body: &serde_json::Value) -> (r: Result<
        CompletionResponse,
        ProviderError,
    >)
        ensures
            outcome(r) == completion_of_json(json_of(*body)),
    {
        match decode_chat_response(body) {
            Some(response) => Self::completion_from_response(response),
            None => Err(
                ProviderError::ParseError(
                    "OpenAI response does not have the expected shape".to_owned(),
                ),
            ),
        }
    }

    /// What the backend's answer means, given its status code and its body.
    pub fn completion_response(status: u16, body: &str) -> (r: Result<
        CompletionResponse,
        ProviderError,
    >)
        ensures
            outcome(r) == openai_completion(status, body@),
            !is_success(status) ==> outcome(r) == api_failure(
                status,
                openai_error_message(body@),
            ),
    {
        match Self::check_status(status, body) {
            Some(e) => Err(e),
            None => match parse_text(body) {
                Ok(v) => Self::completion_from_json(&v),
                Err(e) => Err(ProviderError::ParseError(error_message(&e))),
            },
        }
    }
}

} // verus!
