//! The adapter for a local Ollama instance.
//!
//! The backend has no channel of its own for tool calls. Where a request names
//! tools, the adapter describes them in a system message and asks for an answer
//! in strict-JSON mode, in which the model writes its tool calls as a JSON
//! object. Like the other adapter, this one does no I/O.

use vstd::prelude::*;
use vstd::string::StringExecFns;
use crate::config::{LlmConfig, LlmConfigView, Provider};
use crate::http::{is_success, status_is_success, HttpRequest, HttpRequestView};
use crate::json::{
    as_object, as_str, bool_value, clone_number, error_message, json_of, json_parse, json_pretty,
    json_text, map_get, map_insert, map_keys, map_new, members_of, number_of_u64, number_value,
    object_value, parse_text, string_value, to_pretty_text, to_text, u64_value, JsonValue,
};
use crate::providers::openai::api_failure;
use crate::providers::ollama_wire::{
    decode_json_response, decode_payload, decode_standard_response, json_response_of,
    payload_of, standard_response_of, OllamaJsonResponse, OllamaJsonResponseView,
    OllamaStandardResponse, OllamaStandardResponseView, OllamaToolCall, OllamaToolCallPayload,
    OllamaToolCallPayloadView, OllamaToolCallView,
};
use crate::text::clone_opt_string;
use crate::traits::{
    clone_tool_calls, outcome, ChatMessage, ChatMessageRole, ChatMessageView, CompletionKind, CompletionKindView,
    CompletionRequest, CompletionRequestView, CompletionResponse, CompletionResponseView,
    ProviderError, ProviderErrorView, TokenUsage, Tool, ToolCallFunction, ToolCallFunctionView,
    ToolCallRequest, ToolCallRequestView, ToolView,
};
use crate::wire::{
    encode_messages, encode_schema, get_required_text, members, messages_json, required_text,
    schema_json,
};

verus! {

/// The base address of a local Ollama instance.
pub const OLLAMA_DEFAULT_BASE_URL: &'static str = "http://localhost:11434";

/// The instructions that precede the list of tools in the system message.
pub const TOOL_PROMPT_HEADER: &'static str =
    "You have access to the following tools. Use them if necessary by outputting ONLY a JSON object with a single key 'tool_calls' containing a list of calls. Each call object in the list should have 'id' (a unique lowercase string), and 'function' containing 'name' (the tool name) and 'arguments' (a JSON object matching the tool's parameters schema). Do not output any other text, explanation, or markdown formatting around the JSON object.\n\nAvailable Tools:\n";

/// The adapter for Ollama.
#[derive(Debug)]
pub struct OllamaProvider {
    config: LlmConfig,
    base_url: String,
}

/// The content of an [`OllamaProvider`].
pub struct OllamaProviderView {
    pub config: LlmConfigView,
    pub base_url: Seq<char>,
}

impl View for OllamaProvider {
    type V = OllamaProviderView;

    closed spec fn view(&self) -> OllamaProviderView {
        OllamaProviderView { config: self.config@, base_url: self.base_url@ }
    }
}

impl DeepView for OllamaProvider {
    type V = OllamaProviderView;

    open spec fn deep_view(&self) -> OllamaProviderView {
        self@
    }
}

/// The headers of every request.
pub open spec fn ollama_headers() -> Seq<(Seq<char>, Seq<char>)> {
    seq![("Content-Type"@, "application/json"@)]
}

/// The address of the chat endpoint under a base address.
pub open spec fn chat_url(base_url: Seq<char>) -> Seq<char> {
    base_url + "/api/chat"@
}

/// The line that shows a schema in the prompt, given its indented text, or
/// nothing where the schema could not be written.
pub open spec fn schema_line(schema: Option<Seq<char>>) -> Seq<char> {
    match schema {
        Some(p) => "  Parameters Schema: "@ + p + "\n"@,
        None => "  Parameters Schema: (Failed to format)\n"@,
    }
}

/// The lines that describe one tool in the prompt, given the text of its
/// schema: its name, its description and its schema.
pub open spec fn tool_entry_with(t: ToolView, schema: Option<Seq<char>>) -> Seq<char> {
    "- Name: "@ + t.name + "\n"@ + "  Description: "@ + t.description + "\n"@ + schema_line(
        schema,
    )
}

/// The lines that describe one tool in the prompt.
pub open spec fn tool_entry(t: ToolView) -> Seq<char> {
    tool_entry_with(t, json_pretty(schema_json(t.parameters)))
}

/// The lines that describe the tools, in order.
pub open spec fn tool_entries(tools: Seq<ToolView>) -> Seq<char>
    decreases tools.len(),
{
    if tools.len() == 0 {
        Seq::empty()
    } else {
        tool_entries(tools.drop_last()) + tool_entry(tools.last())
    }
}

/// The text that tells the model which tools it has and how to call them.
pub open spec fn tools_prompt(tools: Seq<ToolView>) -> Seq<char> {
    TOOL_PROMPT_HEADER@ + tool_entries(tools)
}

/// The place of the first system message from `from` on.
pub open spec fn first_system_from(messages: Seq<ChatMessageView>, from: int) -> Option<int>
    decreases messages.len() - from,
{
    if from >= messages.len() {
        None
    } else if messages[from].role == ChatMessageRole::System {
        Some(from)
    } else {
        first_system_from(messages, from + 1)
    }
}

/// A system message with `prompt` added after its own text and an empty line.
pub open spec fn with_prompt_added(m: ChatMessageView, prompt: Seq<char>) -> ChatMessageView {
    ChatMessageView {
        content: Some(
            match m.content {
                Some(c) => c,
                None => Seq::empty(),
            } + "\n\n"@ + prompt,
        ),
        ..m
    }
}

/// The system message that carries `prompt` alone.
pub open spec fn prompt_message(prompt: Seq<char>) -> ChatMessageView {
    ChatMessageView {
        role: ChatMessageRole::System,
        content: Some(prompt),
        tool_calls: None,
        tool_call_id: None,
    }
}

/// The conversation with `prompt` in it: added to the first system message,
/// or, where there is none, in a system message of its own before all others.
pub open spec fn prompted(messages: Seq<ChatMessageView>, prompt: Seq<char>) -> Seq<
    ChatMessageView,
> {
    match first_system_from(messages, 0) {
        Some(i) => messages.update(i, with_prompt_added(messages[i], prompt)),
        None => seq![prompt_message(prompt)] + messages,
    }
}

/// The conversation without the tool calls of its messages.
pub open spec fn sanitized(messages: Seq<ChatMessageView>) -> Seq<ChatMessageView> {
    Seq::new(messages.len(), |i: int| ChatMessageView { tool_calls: None, ..messages[i] })
}

/// Whether a request is answered in strict-JSON mode: where it names at least
/// one tool.
pub open spec fn uses_json_mode(req: CompletionRequestView) -> bool {
    req.tools matches Some(tools) && tools.len() > 0
}

/// The messages to send for a completion that does not stream.
pub open spec fn ollama_messages(req: CompletionRequestView) -> Seq<ChatMessageView> {
    sanitized(
        if uses_json_mode(req) {
            prompted(req.messages, tools_prompt(req.tools->0))
        } else {
            req.messages
        },
    )
}

/// The options of a request: the temperature and the token limit, where the
/// request sets one of them.
pub open spec fn options_json(req: CompletionRequestView) -> Option<JsonValue> {
    if req.temperature is None && req.max_tokens is None {
        None
    } else {
        let with_temperature = match req.temperature {
            Some(n) => Map::empty().insert("temperature"@, JsonValue::Number(n)),
            None => Map::empty(),
        };
        let with_limit = match req.max_tokens {
            Some(n) => with_temperature.insert(
                "num_predict"@,
                JsonValue::Number(number_of_u64(n as u64)),
            ),
            None => with_temperature,
        };
        Some(JsonValue::Object(with_limit))
    }
}

/// The body of a chat request: the model, the messages and the stream flag,
/// with `format: "json"` in strict-JSON mode and with the options where the
/// request sets any.
pub open spec fn ollama_request_json(
    req: CompletionRequestView,
    messages: Seq<ChatMessageView>,
    stream: bool,
    json_mode: bool,
) -> JsonValue {
    let base = Map::empty().insert("model"@, JsonValue::String(req.model)).insert(
        "messages"@,
        messages_json(messages),
    ).insert("stream"@, JsonValue::Bool(stream));
    let with_format = if json_mode {
        base.insert("format"@, JsonValue::String("json"@))
    } else {
        base
    };
    let with_options = match options_json(req) {
        Some(options) => with_format.insert("options"@, options),
        None => with_format,
    };
    JsonValue::Object(with_options)
}

/// Whether a configuration is one that this adapter serves.
pub open spec fn serves(provider: Provider) -> bool {
    provider == Provider::Ollama || provider == Provider::Custom
}

/// The request to send, given the JSON to carry: an error where the provider
/// is configured for another backend or the JSON has no text.
pub open spec fn ollama_request(p: OllamaProviderView, body: JsonValue) -> Result<
    HttpRequestView,
    ProviderErrorView,
> {
    ollama_request_carrying(p, json_text(body))
}

/// The request to send, given the text of its body: an error where the
/// provider is configured for another backend or there is no text.
pub open spec fn ollama_request_carrying(p: OllamaProviderView, body: Option<Seq<char>>) -> Result<
    HttpRequestView,
    ProviderErrorView,
> {
    if !serves(p.config.provider) {
        Err(ProviderErrorView::ConfigError("Invalid provider configured for OllamaProvider"@))
    } else {
        match body {
            Some(text) => Ok(
                HttpRequestView {
                    url: chat_url(p.base_url),
                    headers: ollama_headers(),
                    body: text,
                },
            ),
            None => Err(ProviderErrorView::RequestError("Failed to encode the request body"@)),
        }
    }
}

/// What to send for a completion that does not stream.
pub open spec fn ollama_completion_request(p: OllamaProviderView, req: CompletionRequestView) -> Result<
    HttpRequestView,
    ProviderErrorView,
> {
    ollama_request(p, ollama_request_json(req, ollama_messages(req), false, uses_json_mode(req)))
}

/// What to send for a completion that streams: nothing where the request
/// names tools, since strict-JSON mode and streaming exclude each other.
pub open spec fn ollama_stream_request(p: OllamaProviderView, req: CompletionRequestView) -> Result<
    HttpRequestView,
    ProviderErrorView,
> {
    if req.tools is Some {
        Err(
            ProviderErrorView::Unsupported(
                "Streaming tool calls are not currently supported by the Ollama provider (requires format=json which disables streaming)."@,
            ),
        )
    } else {
        ollama_request(p, ollama_request_json(req, req.messages, true, false))
    }
}

/// Whether every member of an object is a string.
pub open spec fn all_strings(m: Map<Seq<char>, JsonValue>) -> bool {
    forall|k: Seq<char>| #[trigger] m.contains_key(k) ==> m[k] is String
}

/// The message of an error envelope: the member `error` of an object whose
/// members are all strings.
pub open spec fn ollama_envelope_message(j: JsonValue) -> Option<Seq<char>> {
    match members(j) {
        Some(m) => if all_strings(m) {
            required_text(m, "error"@)
        } else {
            None
        },
        None => None,
    }
}

/// The message of a failed call: the message of the backend's error envelope
/// where the body is one, the whole body otherwise.
pub open spec fn ollama_error_message(body: Seq<char>) -> Seq<char> {
    match json_parse(body) {
        Ok(j) => match ollama_envelope_message(j) {
            Some(m) => m,
            None => body,
        },
        Err(_) => body,
    }
}

/// The error that a status stands for, if it is not a success.
pub open spec fn ollama_status_error(status: u16, body: Seq<char>) -> Option<ProviderErrorView> {
    if is_success(status) {
        None
    } else {
        Some(ProviderErrorView::ApiError { status, message: ollama_error_message(body) })
    }
}

/// The usage, where both counts are known and their sum is a count: the total
/// is the sum of the two.
pub open spec fn usage_calculated(prompt_tokens: Option<u32>, completion_tokens: Option<u32>) -> Option<
    TokenUsage,
> {
    match (prompt_tokens, completion_tokens) {
        (Some(pt), Some(ct)) => if pt + ct <= u32::MAX {
            Some(
                TokenUsage {
                    prompt_tokens: pt,
                    completion_tokens: ct,
                    total_tokens: (pt + ct) as u32,
                },
            )
        } else {
            None
        },
        _ => None,
    }
}

/// A text, or the empty text for none.
pub open spec fn text_or_empty(text: Option<Seq<char>>) -> Seq<char> {
    match text {
        Some(t) => t,
        None => Seq::empty(),
    }
}

/// The arguments of a call as text: the string itself where the model wrote a
/// string, else the JSON text of what it wrote, and nothing where that has no
/// text.
pub open spec fn arguments_text(j: JsonValue) -> Seq<char> {
    match j {
        JsonValue::String(s) => s,
        other => text_or_empty(json_text(other)),
    }
}

/// A tool call in normalized form.
pub open spec fn ollama_call_mapped(c: OllamaToolCallView) -> ToolCallRequestView {
    ToolCallRequestView {
        id: c.id,
        tool_type: "function"@,
        function: ToolCallFunctionView {
            name: c.function.name,
            arguments: arguments_text(c.function.arguments),
        },
    }
}

/// The tool calls in normalized form, in order.
pub open spec fn ollama_calls_mapped(calls: Seq<OllamaToolCallView>) -> Seq<ToolCallRequestView> {
    Seq::new(calls.len(), |i: int| ollama_call_mapped(calls[i]))
}

/// The finish reason of a response: `reason` where the answer is complete.
pub open spec fn finish_if_done(done: bool, reason: Seq<char>) -> Option<Seq<char>> {
    if done {
        Some(reason)
    } else {
        None
    }
}

/// The tool-call payload that a text holds, if it is JSON and a payload.
pub open spec fn content_payload(text: Seq<char>) -> Option<OllamaToolCallPayloadView> {
    match json_parse(text) {
        Ok(j) => payload_of(j),
        Err(_) => None,
    }
}

/// The completion with the given tool calls.
pub open spec fn tool_call_completion(
    calls: Seq<OllamaToolCallView>,
    usage: Option<TokenUsage>,
    finish_reason: Option<Seq<char>>,
) -> CompletionResponseView {
    CompletionResponseView {
        kind: CompletionKindView::ToolCall { tool_calls: ollama_calls_mapped(calls) },
        usage,
        finish_reason,
    }
}

/// The completion with the given text.
pub open spec fn message_completion(
    content: Seq<char>,
    usage: Option<TokenUsage>,
    finish_reason: Option<Seq<char>>,
) -> CompletionResponseView {
    CompletionResponseView { kind: CompletionKindView::Message { content }, usage, finish_reason }
}

/// The completion that a structured response holds: its tool calls where it
/// has the member; else those that its message's text holds, where the text is
/// a tool-call payload; else the text as it is.
pub open spec fn structured_completion(resp: OllamaJsonResponseView) -> Result<
    CompletionResponseView,
    ProviderErrorView,
> {
    let usage = usage_calculated(resp.meta.prompt_eval_count, resp.meta.eval_count);
    match resp.tool_calls {
        Some(calls) => Ok(
            tool_call_completion(calls, usage, finish_if_done(resp.meta.done, "tool_calls"@)),
        ),
        None => match resp.message {
            Some(message) => match message.content {
                Some(text) => match content_payload(text) {
                    Some(payload) => Ok(
                        tool_call_completion(
                            payload.tool_calls,
                            usage,
                            finish_if_done(resp.meta.done, "tool_calls"@),
                        ),
                    ),
                    None => Ok(
                        message_completion(text, usage, finish_if_done(resp.meta.done, "stop"@)),
                    ),
                },
                None => Ok(
                    message_completion(
                        Seq::empty(),
                        usage,
                        finish_if_done(resp.meta.done, "stop"@),
                    ),
                ),
            },
            None => Err(
                ProviderErrorView::ParseError(
                    "Ollama JSON response did not contain expected 'message' or 'tool_calls' field."@,
                ),
            ),
        },
    }
}

/// The completion that a body in strict-JSON mode holds: that of the
/// structured response where the body is one; else the tool calls of the
/// payload where the body is a bare payload; else a parse error.
pub open spec fn json_mode_completion(j: JsonValue) -> Result<
    CompletionResponseView,
    ProviderErrorView,
> {
    match json_response_of(j) {
        Some(resp) => structured_completion(resp),
        None => match payload_of(j) {
            Some(payload) => Ok(
                tool_call_completion(payload.tool_calls, None, Some("tool_calls"@)),
            ),
            None => Err(
                ProviderErrorView::ParseError(
                    "Ollama response is neither a chat response nor a tool-call payload"@,
                ),
            ),
        },
    }
}

/// The completion that a plain response holds: the text of its message.
pub open spec fn standard_completion_of(resp: OllamaStandardResponseView) -> CompletionResponseView {
    message_completion(
        match resp.message.content {
            Some(c) => c,
            None => Seq::empty(),
        },
        usage_calculated(resp.meta.prompt_eval_count, resp.meta.eval_count),
        finish_if_done(resp.meta.done, "stop"@),
    )
}

/// The completion that a body outside strict-JSON mode holds.
pub open spec fn standard_completion(j: JsonValue) -> Result<
    CompletionResponseView,
    ProviderErrorView,
> {
    match standard_response_of(j) {
        Some(resp) => Ok(standard_completion_of(resp)),
        None => Err(
            ProviderErrorView::ParseError("Ollama response does not have the expected shape"@),
        ),
    }
}

/// The completion that a JSON body holds, in the given mode.
pub open spec fn ollama_completion_of_json(j: JsonValue, json_mode: bool) -> Result<
    CompletionResponseView,
    ProviderErrorView,
> {
    if json_mode {
        json_mode_completion(j)
    } else {
        standard_completion(j)
    }
}

/// What a status and a body mean: an API error for a status that is not a
/// success, a parse error for a body that is not JSON, and else the completion
/// that the body holds.
pub open spec fn ollama_completion(status: u16, body: Seq<char>, json_mode: bool) -> Result<
    CompletionResponseView,
    ProviderErrorView,
> {
    match ollama_status_error(status, body) {
        Some(e) => Err(e),
        None => match json_parse(body) {
            Ok(j) => ollama_completion_of_json(j, json_mode),
            Err(msg) => Err(ProviderErrorView::ParseError(msg)),
        },
    }
}

fn finish_reason(done: bool, reason: &str) -> (r: Option<String>)
    ensures
        r.deep_view() == finish_if_done(done, reason@),
{
    if done {
        Some(reason.to_owned())
    } else {
        None
    }
}

impl OllamaProvider {
    /// The adapter for `config`. The base address defaults to that of a local
    /// instance.
    pub fn new(config: LlmConfig) -> (r: Self)
        ensures
            r@ == (OllamaProviderView {
                config: config@,
                base_url: match config@.base_url {
                    Some(u) => u,
                    None => OLLAMA_DEFAULT_BASE_URL@,
                },
            }),
    {
        let base_url = match &config.base_url {
            Some(u) => u.clone(),
            None => OLLAMA_DEFAULT_BASE_URL.to_owned(),
        };
        OllamaProvider { config, base_url }
    }

    /// The headers of every request.
    pub fn build_headers(&self) -> (r: Vec<(String, String)>)
        ensures
            r.deep_view() == ollama_headers(),
    {
        let mut headers: Vec<(String, String)> = Vec::new();
        headers.push(("Content-Type".to_owned(), "application/json".to_owned()));
        assert(headers.deep_view() =~= ollama_headers());
        headers
    }

    /// The address of the chat endpoint.
    pub fn endpoint(&self) -> (r: String)
        ensures
            r@ == chat_url(self@.base_url),
    {
        let mut url = self.base_url.clone();
        url.append("/api/chat");
        url
    }

    /// Writes the options of a request, where it sets any.
    pub fn create_ollama_options(request: &CompletionRequest) -> (r: Option<serde_json::Value>)
        ensures
            match options_json(request@) {
                Some(j) => r matches Some(v) && json_of(v) == j,
                None => r is None,
            },
    {
        if request.temperature.is_none() && request.max_tokens.is_none() {
            return None;
        }
        let mut options = map_new();
        match &request.temperature {
            Some(n) => {
                map_insert(&mut options, "temperature".to_owned(), number_value(clone_number(n)));
            },
            None => {},
        }
        match request.max_tokens {
            Some(n) => {
                map_insert(&mut options, "num_predict".to_owned(), u64_value(n as u64));
            },
            None => {},
        }
        Some(object_value(options))
    }

    /// Adds to `text` the lines that describe `tool`. `schema` is the indented
    /// text of the tool's schema, or nothing where it could not be written.
    pub fn write_tool_entry(text: &mut String, tool: &Tool, schema: Option<String>)
        ensures
            final(text)@ == old(text)@ + tool_entry_with(tool@, schema.deep_view()),
    {
        let ghost before = text@;
        text.append("- Name: ");
        text.append(tool.name.as_str());
        text.append("\n");
        text.append("  Description: ");
        text.append(tool.description.as_str());
        text.append("\n");
        match schema {
            Some(params) => {
                text.append("  Parameters Schema: ");
                text.append(params.as_str());
                text.append("\n");
            },
            None => {
                text.append("  Parameters Schema: (Failed to format)\n");
            },
        }
        assert(text@ =~= before + tool_entry_with(tool@, schema.deep_view()));
    }

    /// The text of optional JSON text: empty for none.
    pub fn text_or_empty(text: Option<String>) -> (r: String)
        ensures
            r@ == text_or_empty(text.deep_view()),
    {
        match text {
            Some(t) => t,
            None => String::new(),
        }
    }

    /// Writes the text that tells the model which tools it has and how to call
    /// them.
    pub fn format_tools_for_prompt(tools: &[Tool]) -> (r: String)
        ensures
            r@ == tools_prompt(tools.deep_view()),
    {
        let mut text = TOOL_PROMPT_HEADER.to_owned();
        let ghost all = tools.deep_view();
        let mut i: usize = 0;
        assert(all.take(0) =~= Seq::<ToolView>::empty());
        assert(text@ =~= TOOL_PROMPT_HEADER@ + tool_entries(all.take(0)));
        while i < tools.len()
            invariant
                i <= tools@.len(),
                all == tools.deep_view(),
                text@ == TOOL_PROMPT_HEADER@ + tool_entries(all.take(i as int)),
            decreases tools@.len() - i,
        {
            let tool = &tools[i];
            let ghost before = text@;
            proof {
                assert(all.take(i as int + 1).drop_last() =~= all.take(i as int));
                assert(all.take(i as int + 1).last() == tool@);
            }
            let schema = to_pretty_text(&encode_schema(&tool.parameters));
            Self::write_tool_entry(&mut text, tool, schema);
            assert(text@ =~= TOOL_PROMPT_HEADER@ + tool_entries(all.take(i as int + 1)));
            i = i + 1;
        }
        assert(all.take(i as int) =~= all);
        text
    }

    /// The usage, where both counts are known. The total is the sum of the
    /// two; where the sum is too large for a count, no usage is reported.
    pub fn calculate_usage(prompt_tokens: Option<u32>, completion_tokens: Option<u32>) -> (r:
        Option<TokenUsage>)
        ensures
            r == usage_calculated(prompt_tokens, completion_tokens),
            r matches Some(u) ==> u.consistent(),
    {
        match (prompt_tokens, completion_tokens) {
            (Some(pt), Some(ct)) => {
                if pt <= u32::MAX - ct {
                    Some(
                        TokenUsage { prompt_tokens: pt, completion_tokens: ct, total_tokens: pt + ct },
                    )
                } else {
                    None
                }
            },
            _ => None,
        }
    }

    /// The tool calls in normalized form. Arguments that the model wrote as a
    /// JSON value other than a string are written out as JSON text.
    pub fn map_ollama_tool_calls(ollama_calls: Vec<OllamaToolCall>) -> (r: Vec<ToolCallRequest>)
        ensures
            r.deep_view() == ollama_calls_mapped(ollama_calls.deep_view()),
    {
        let mut out: Vec<ToolCallRequest> = Vec::new();
        let mut i: usize = 0;
        while i < ollama_calls.len()
            invariant
                i <= ollama_calls@.len(),
                out@.len() == i,
                forall|j: int|
                    0 <= j < i ==> (#[trigger] out@[j])@ == ollama_call_mapped(ollama_calls@[j]@),
            decreases ollama_calls@.len() - i,
        {
            let call = &ollama_calls[i];
            let arguments = match as_str(&call.function.arguments) {
                Some(s) => s.to_owned(),
                None => Self::text_or_empty(to_text(&call.function.arguments)),
            };
            out.push(
                ToolCallRequest {
                    id: call.id.clone(),
                    tool_type: "function".to_owned(),
                    function: ToolCallFunction { name: call.function.name.clone(), arguments },
                },
            );
            i = i + 1;
        }
        assert(out.deep_view() =~= ollama_calls_mapped(ollama_calls.deep_view()));
        out
    }

    /// Whether `request` is answered in strict-JSON mode.
    pub fn json_mode(request: &CompletionRequest) -> (r: bool)
        ensures
            r == uses_json_mode(request@),
    {
        match &request.tools {
            Some(tools) => tools.len() > 0,
            None => false,
        }
    }

    /// The place of the first system message of a conversation.
    pub fn first_system(messages: &Vec<ChatMessage>) -> (r: Option<usize>)
        ensures
            match r {
                Some(p) => p < messages@.len() && first_system_from(messages.deep_view(), 0)
                    == Some(p as int),
                None => first_system_from(messages.deep_view(), 0) is None,
            },
    {
        let ghost all = messages.deep_view();
        let mut i: usize = 0;
        while i < messages.len()
            invariant
                i <= messages@.len(),
                all == messages.deep_view(),
                first_system_from(all, 0) == first_system_from(all, i as int),
            decreases messages@.len() - i,
        {
            assert(all[i as int] == messages@[i as int]@);
            if messages[i].role == ChatMessageRole::System {
                return Some(i);
            }
            i = i + 1;
        }
        None
    }

    /// Puts `prompt` into a conversation: into the first system message, or
    /// into a system message of its own before all others.
    pub fn inject_prompt(messages: &Vec<ChatMessage>, prompt: String) -> (r: Vec<ChatMessage>)
        ensures
            r.deep_view() == prompted(messages.deep_view(), prompt@),
    {
        let ghost all = messages.deep_view();
        let ghost prompt_text = prompt@;
        let found = Self::first_system(messages);
        let mut out: Vec<ChatMessage> = Vec::new();
        match found {
            Some(p) => {
                let mut j: usize = 0;
                while j < messages.len()
                    invariant
                        j <= messages@.len(),
                        p < messages@.len(),
                        all == messages.deep_view(),
                        out@.len() == j,
                        forall|k: int|
                            0 <= k < j ==> (#[trigger] out@[k])@ == prompted(all, prompt@)[k],
                        first_system_from(all, 0) == Some(p as int),
                    decreases messages@.len() - j,
                {
                    let m = &messages[j];
                    assert(all[j as int] == m@);
                    if j == p {
                        let mut content = match &m.content {
                            Some(c) => c.clone(),
                            None => String::new(),
                        };
                        content.append("\n\n");
                        content.append(prompt.as_str());
                        out.push(
                            ChatMessage {
                                role: m.role,
                                content: Some(content),
                                tool_calls: match &m.tool_calls {
                                    Some(calls) => Some(clone_tool_calls(calls)),
                                    None => None,
                                },
                                tool_call_id: clone_opt_string(&m.tool_call_id),
                            },
                        );
                    } else {
                        out.push(m.clone());
                    }
                    j = j + 1;
                }
                assert(out.deep_view() =~= prompted(all, prompt@));
            },
            None => {
                out.push(
                    ChatMessage {
                        role: ChatMessageRole::System,
                        content: Some(prompt),
                        tool_calls: None,
                        tool_call_id: None,
                    },
                );
                let mut j: usize = 0;
                while j < messages.len()
                    invariant
                        j <= messages@.len(),
                        all == messages.deep_view(),
                        out@.len() == j + 1,
                        out@[0]@ == prompt_message(prompt_text),
                        forall|k: int| 1 <= k < j + 1 ==> (#[trigger] out@[k])@ == all[k - 1],
                    decreases messages@.len() - j,
                {
                    assert(all[j as int] == messages@[j as int]@);
                    out.push(messages[j].clone());
                    j = j + 1;
                }
                assert(out.deep_view() =~= seq![prompt_message(prompt_text)] + all);
            },
        }
        out
    }

    /// The conversation without the tool calls of its messages, which the
    /// backend does not take.
    pub fn sanitize(messages: &Vec<ChatMessage>) -> (r: Vec<ChatMessage>)
        ensures
            r.deep_view() == sanitized(messages.deep_view()),
    {
        let mut out: Vec<ChatMessage> = Vec::new();
        let mut i: usize = 0;
        while i < messages.len()
            invariant
                i <= messages@.len(),
                out@.len() == i,
                forall|k: int|
                    0 <= k < i ==> (#[trigger] out@[k])@ == (ChatMessageView {
                        tool_calls: None,
                        ..messages@[k]@
                    }),
            decreases messages@.len() - i,
        {
            let m = &messages[i];
            out.push(
                ChatMessage {
                    role: m.role,
                    content: clone_opt_string(&m.content),
                    tool_calls: None,
                    tool_call_id: clone_opt_string(&m.tool_call_id),
                },
            );
            i = i + 1;
        }
        assert(out.deep_view() =~= sanitized(messages.deep_view()));
        out
    }

    /// The messages to send for a completion that does not stream: with the
    /// tools described in a system message where the request names any, and
    /// without tool calls.
    pub fn prepare_messages(request: &CompletionRequest) -> (r: Vec<ChatMessage>)
        ensures
            r.deep_view() == ollama_messages(request@),
    {
        match &request.tools {
            Some(tools) => {
                if tools.len() > 0 {
                    let listed = tools.as_slice();
                    assert(listed.deep_view() =~= tools.deep_view());
                    let prompt = Self::format_tools_for_prompt(listed);
                    let with_prompt = Self::inject_prompt(&request.messages, prompt);
                    Self::sanitize(&with_prompt)
                } else {
                    Self::sanitize(&request.messages)
                }
            },
            None => Self::sanitize(&request.messages),
        }
    }

    /// Writes the body of a chat request.
    pub fn encode_request(
        request: &CompletionRequest,
        messages: &Vec<ChatMessage>,
        stream: bool,
        json_mode: bool,
    ) -> (r: serde_json::Value)
        ensures
            json_of(r) == ollama_request_json(request@, messages.deep_view(), stream, json_mode),
    {
        let mut body = map_new();
        map_insert(&mut body, "model".to_owned(), string_value(request.model.clone()));
        map_insert(&mut body, "messages".to_owned(), encode_messages(messages));
        map_insert(&mut body, "stream".to_owned(), bool_value(stream));
        if json_mode {
            map_insert(&mut body, "format".to_owned(), string_value("json".to_owned()));
        }
        match Self::create_ollama_options(request) {
            Some(options) => {
                map_insert(&mut body, "options".to_owned(), options);
            },
            None => {},
        }
        object_value(body)
    }

    fn request_with(&self, body: &serde_json::Value) -> (r: Result<HttpRequest, ProviderError>)
        ensures
            outcome(r) == ollama_request(self@, json_of(*body)),
    {
        self.request_carrying(to_text(body))
    }

    /// The request that carries `body`, the text of a request body, or nothing
    /// where the body could not be written. Fails where the adapter's
    /// configuration names another provider, and where there is no body.
    pub fn request_carrying(&self, body: Option<String>) -> (r: Result<HttpRequest, ProviderError>)
        ensures
            outcome(r) == ollama_request_carrying(self@, body.deep_view()),
    {
        if self.config.provider != Provider::Ollama && self.config.provider != Provider::Custom {
            return Err(
                ProviderError::ConfigError(
                    "Invalid provider configured for OllamaProvider".to_owned(),
                ),
            );
        }
        match body {
            Some(text) => Ok(
                HttpRequest { url: self.endpoint(), headers: self.build_headers(), body: text },
            ),
            None => Err(
                ProviderError::RequestError("Failed to encode the request body".to_owned()),
            ),
        }
    }

    /// What to send for `request` when the answer is wanted in one piece. Fails
    /// where the adapter's configuration names another provider.
    pub fn completion_request(&self, request: &CompletionRequest) -> (r: Result<
        HttpRequest,
        ProviderError,
    >)
        ensures
            outcome(r) == ollama_completion_request(self@, request@),
    {
        let messages = Self::prepare_messages(request);
        let body = Self::encode_request(request, &messages, false, Self::json_mode(request));
        self.request_with(&body)
    }

    /// What to send for `request` when the answer is to be streamed. Fails
    /// where the request names tools, and where the adapter's configuration
    /// names another provider.
    pub fn stream_request(&self, request: &CompletionRequest) -> (r: Result<
        HttpRequest,
        ProviderError,
    >)
        ensures
            outcome(r) == ollama_stream_request(self@, request@),
    {
        if request.tools.is_some() {
            return Err(
                ProviderError::Unsupported(
                    "Streaming tool calls are not currently supported by the Ollama provider (requires format=json which disables streaming).".to_owned(),
                ),
            );
        }
        let body = Self::encode_request(request, &request.messages, true, false);
        self.request_with(&body)
    }

    /// Reads the message of an error envelope.
    pub fn read_envelope_message(v: &serde_json::Value) -> (r: Option<String>)
        ensures
            r.deep_view() == ollama_envelope_message(json_of(*v)),
    {
        let m = as_object(v)?;
        let keys = map_keys(m);
        let ghost names = keys.deep_view();
        let mut i: usize = 0;
        while i < keys.len()
            invariant
                i <= keys@.len(),
                names == keys.deep_view(),
                json_of(*v) == JsonValue::Object(members_of(*m)),
                forall|k: Seq<char>| #[trigger]
                    members_of(*m).contains_key(k) <==> names.contains(k),
                forall|j: int| 0 <= j < i ==> members_of(*m)[#[trigger] names[j]] is String,
            decreases keys@.len() - i,
        {
            assert(names[i as int] == keys@[i as int]@);
            assert(names.contains(names[i as int]));
            match map_get(m, keys[i].as_str()) {
                Some(x) => {
                    if as_str(x).is_none() {
                        assert(!all_strings(members_of(*m)));
                        return None;
                    }
                },
                None => {},
            }
            i = i + 1;
        }
        assert(all_strings(members_of(*m))) by {
            assert forall|k: Seq<char>| #[trigger] members_of(*m).contains_key(k) implies members_of(
                *m,
            )[k] is String by {
                assert(names.contains(k));
                let j = choose|j: int| 0 <= j < names.len() && names[j] == k;
                assert(members_of(*m)[names[j]] is String);
            }
        }
        get_required_text(m, "error")
    }

    /// The message of a failed call with the given body.
    pub fn error_message_of(body: &str) -> (r: String)
        ensures
            r@ == ollama_error_message(body@),
    {
        match parse_text(body) {
            Ok(v) => match Self::read_envelope_message(&v) {
                Some(m) => m,
                None => body.to_owned(),
            },
            Err(_) => body.to_owned(),
        }
    }

    /// The error that `status` stands for, if it is not a success. `body` is
    /// the body that came with it.
    pub fn check_status(status: u16, body: &str) -> (r: Option<ProviderError>)
        ensures
            r.deep_view() == ollama_status_error(status, body@),
    {
        if status_is_success(status) {
            None
        } else {
            Some(ProviderError::ApiError { status, message: Self::error_message_of(body) })
        }
    }

    /// Reads the tool-call payload that a text holds.
    pub fn read_content_payload(text: &str) -> (r: Option<OllamaToolCallPayload>)
        ensures
            r.deep_view() == content_payload(text@),
    {
        match parse_text(text) {
            Ok(v) => decode_payload(&v),
            Err(_) => None,
        }
    }

    /// The completion that a structured response holds.
    pub fn completion_from_structured(response: OllamaJsonResponse) -> (r: Result<
        CompletionResponse,
        ProviderError,
    >)
        ensures
            outcome(r) == structured_completion(response@),
    {
        let usage = Self::calculate_usage(response.meta.prompt_eval_count, response.meta.eval_count);
        let done = response.meta.done;
        match response.tool_calls {
            Some(calls) => Ok(
                CompletionResponse {
                    kind: CompletionKind::ToolCall {
                        tool_calls: Self::map_ollama_tool_calls(calls),
                    },
                    usage,
                    finish_reason: finish_reason(done, "tool_calls"),
                },
            ),
            None => match response.message {
                Some(message) => match message.content {
                    Some(text) => match Self::read_content_payload(text.as_str()) {
                        Some(payload) => Ok(
                            CompletionResponse {
                                kind: CompletionKind::ToolCall {
                                    tool_calls: Self::map_ollama_tool_calls(payload.tool_calls),
                                },
                                usage,
                                finish_reason: finish_reason(done, "tool_calls"),
                            },
                        ),
                        None => Ok(
                            CompletionResponse {
                                kind: CompletionKind::Message { content: text },
                                usage,
                                finish_reason: finish_reason(done, "stop"),
                            },
                        ),
                    },
                    None => Ok(
                        CompletionResponse {
                            kind: CompletionKind::Message { content: String::new() },
                            usage,
                            finish_reason: finish_reason(done, "stop"),
                        },
                    ),
                },
                None => Err(
                    ProviderError::ParseError(
                        "Ollama JSON response did not contain expected 'message' or 'tool_calls' field.".to_owned(),
                    ),
                ),
            },
        }
    }

    /// The completion that a plain response holds.
    pub fn completion_from_standard(response: OllamaStandardResponse) -> (r: CompletionResponse)
        ensures
            r@ == standard_completion_of(response@),
    {
        let usage = Self::calculate_usage(response.meta.prompt_eval_count, response.meta.eval_count);
        let content = match response.message.content {
            Some(c) => c,
            None => String::new(),
        };
        CompletionResponse {
            kind: CompletionKind::Message { content },
            usage,
            finish_reason: finish_reason(response.meta.done, "stop"),
        }
    }

    /// The completion that a JSON body holds, in the given mode.
    pub fn completion_from_json(body: &serde_json::Value, json_mode: bool) -> (r: Result<
        CompletionResponse,
        ProviderError,
    >)
        ensures
            outcome(r) == ollama_completion_of_json(json_of(*body), json_mode),
    {
        if json_mode {
            match decode_json_response(body) {
                Some(response) => Self::completion_from_structured(response),
                None => match decode_payload(body) {
                    Some(payload) => Ok(
                        CompletionResponse {
                            kind: CompletionKind::ToolCall {
                                tool_calls: Self::map_ollama_tool_calls(payload.tool_calls),
                            },
                            usage: None,
                            finish_reason: Some("tool_calls".to_owned()),
                        },
                    ),
                    None => Err(
                        ProviderError::ParseError(
                            "Ollama response is neither a chat response nor a tool-call payload".to_owned(),
                        ),
                    ),
                },
            }
        } else {
            match decode_standard_response(body) {
                Some(response) => Ok(Self::completion_from_standard(response)),
                None => Err(
                    ProviderError::ParseError(
                        "Ollama response does not have the expected shape".to_owned(),
                    ),
                ),
            }
        }
    }

    /// What the backend's answer means, given its status code, its body, and
    /// whether the request asked for strict-JSON mode.
    pub fn completion_response(status: u16, body: &str, json_mode: bool) -> (r: Result<
        CompletionResponse,
        ProviderError,
    >)
        ensures
            outcome(r) == ollama_completion(status, body@, json_mode),
            !is_success(status) ==> outcome(r) == api_failure(
                status,
                ollama_error_message(body@),
            ),
    {
        match Self::check_status(status, body) {
            Some(e) => Err(e),
            None => match parse_text(body) {
                Ok(v) => Self::completion_from_json(&v, json_mode),
                Err(e) => Err(ProviderError::ParseError(error_message(&e))),
            },
        }
    }
}

} // verus!
