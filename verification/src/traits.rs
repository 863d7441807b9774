//! The normalized data model: the requests, responses, stream chunks and tool
//! descriptions that every provider speaks.
//!
//! Each type has a view, its mathematical content: strings become sequences of
//! characters, vectors become sequences, JSON values become trees. Contracts
//! throughout the crate are stated over these views.

use vstd::prelude::*;
use vstd::string::StringExecFns;
use crate::json::{clone_map, clone_number, members_of, JsonValue};
use crate::text::{clone_opt_string, clone_strings, decimal_string, decimal_text};

verus! {

/// A JSON-schema description of an object: the type of each property, and
/// which properties must be present.
#[derive(Debug)]
pub struct JsonSchema {
    /// The schema's own type, `"object"` for a tool's parameters.
    pub schema_type: String,
    /// One schema fragment for each property, by name.
    pub properties: Option<serde_json::Map<String, serde_json::Value>>,
    /// The names of the properties that must be present.
    pub required: Option<Vec<String>>,
}

/// The content of a [`JsonSchema`].
pub struct JsonSchemaView {
    pub schema_type: Seq<char>,
    pub properties: Option<Map<Seq<char>, JsonValue>>,
    pub required: Option<Seq<Seq<char>>>,
}

impl View for JsonSchema {
    type V = JsonSchemaView;

    open spec fn view(&self) -> JsonSchemaView {
        JsonSchemaView {
            schema_type: self.schema_type@,
            properties: match self.properties {
                Some(m) => Some(members_of(m)),
                None => None,
            },
            required: self.required.deep_view(),
        }
    }
}

impl DeepView for JsonSchema {
    type V = JsonSchemaView;

    open spec fn deep_view(&self) -> JsonSchemaView {
        self@
    }
}

impl Clone for JsonSchema {
    fn clone(&self) -> (r: Self)
        ensures
            r@ == self@,
    {
        JsonSchema {
            schema_type: self.schema_type.clone(),
            properties: match &self.properties {
                Some(m) => Some(clone_map(m)),
                None => None,
            },
            required: match &self.required {
                Some(names) => Some(clone_strings(names)),
                None => None,
            },
        }
    }
}

/// A function that the model may ask the caller to invoke.
#[derive(Debug)]
pub struct Tool {
    /// The name by which the function is called; unique within a registry.
    pub name: String,
    /// What the function does, for the model to decide when to call it.
    pub description: String,
    /// The parameters the function takes.
    pub parameters: JsonSchema,
}

/// The content of a [`Tool`].
pub struct ToolView {
    pub name: Seq<char>,
    pub description: Seq<char>,
    pub parameters: JsonSchemaView,
}

impl View for Tool {
    type V = ToolView;

    open spec fn view(&self) -> ToolView {
        ToolView {
            name: self.name@,
            description: self.description@,
            parameters: self.parameters@,
        }
    }
}

impl DeepView for Tool {
    type V = ToolView;

    open spec fn deep_view(&self) -> ToolView {
        self@
    }
}

impl Clone for Tool {
    fn clone(&self) -> (r: Self)
        ensures
            r@ == self@,
    {
        Tool {
            name: self.name.clone(),
            description: self.description.clone(),
            parameters: self.parameters.clone(),
        }
    }
}

/// A copy of a list of tools.
pub fn clone_tools(tools: &Vec<Tool>) -> (r: Vec<Tool>)
    ensures
        r.deep_view() == tools.deep_view(),
{
    let mut out: Vec<Tool> = Vec::new();
    let mut i: usize = 0;
    while i < tools.len()
        invariant
            i <= tools.len(),
            out@.len() == i,
            forall|j: int| 0 <= j < i ==> out@[j]@ == tools@[j]@,
        decreases tools.len() - i,
    {
        out.push(tools[i].clone());
        i = i + 1;
    }
    assert(out.deep_view() =~= tools.deep_view());
    out
}

/// The function named in a tool call, and its arguments.
#[derive(Debug)]
pub struct ToolCallFunction {
    /// The name of the function to call.
    pub name: String,
    /// The arguments, as JSON text.
    pub arguments: String,
}

/// The content of a [`ToolCallFunction`].
pub struct ToolCallFunctionView {
    pub name: Seq<char>,
    pub arguments: Seq<char>,
}

impl View for ToolCallFunction {
    type V = ToolCallFunctionView;

    open spec fn view(&self) -> ToolCallFunctionView {
        ToolCallFunctionView { name: self.name@, arguments: self.arguments@ }
    }
}

impl DeepView for ToolCallFunction {
    type V = ToolCallFunctionView;

    open spec fn deep_view(&self) -> ToolCallFunctionView {
        self@
    }
}

impl Clone for ToolCallFunction {
    fn clone(&self) -> (r: Self)
        ensures
            r@ == self@,
    {
        ToolCallFunction { name: self.name.clone(), arguments: self.arguments.clone() }
    }
}

/// One call that the model asks for.
#[derive(Debug)]
pub struct ToolCallRequest {
    /// Identifies this call among those of one response.
    pub id: String,
    /// The kind of call; always `"function"`.
    pub tool_type: String,
    /// What to call, and with what.
    pub function: ToolCallFunction,
}

/// The content of a [`ToolCallRequest`].
pub struct ToolCallRequestView {
    pub id: Seq<char>,
    pub tool_type: Seq<char>,
    pub function: ToolCallFunctionView,
}

impl View for ToolCallRequest {
    type V = ToolCallRequestView;

    open spec fn view(&self) -> ToolCallRequestView {
        ToolCallRequestView { id: self.id@, tool_type: self.tool_type@, function: self.function@ }
    }
}

impl DeepView for ToolCallRequest {
    type V = ToolCallRequestView;

    open spec fn deep_view(&self) -> ToolCallRequestView {
        self@
    }
}

impl Clone for ToolCallRequest {
    fn clone(&self) -> (r: Self)
        ensures
            r@ == self@,
    {
        ToolCallRequest {
            id: self.id.clone(),
            tool_type: self.tool_type.clone(),
            function: self.function.clone(),
        }
    }
}

impl ToolCallRequest {
    /// A call of kind `"function"`.
    pub fn new_function_call(id: String, function: ToolCallFunction) -> (r: Self)
        ensures
            r@ == (ToolCallRequestView {
                id: id@,
                tool_type: "function"@,
                function: function@,
            }),
    {
        ToolCallRequest { id, tool_type: "function".to_owned(), function }
    }
}

/// A copy of a list of tool calls.
pub fn clone_tool_calls(calls: &Vec<ToolCallRequest>) -> (r: Vec<ToolCallRequest>)
    ensures
        r.deep_view() == calls.deep_view(),
{
    let mut out: Vec<ToolCallRequest> = Vec::new();
    let mut i: usize = 0;
    while i < calls.len()
        invariant
            i <= calls.len(),
            out@.len() == i,
            forall|j: int| 0 <= j < i ==> out@[j]@ == calls@[j]@,
        decreases calls.len() - i,
    {
        out.push(calls[i].clone());
        i = i + 1;
    }
    assert(out.deep_view() =~= calls.deep_view());
    out
}

/// Who speaks in a message.
#[derive(Debug, Clone, Copy, PartialEq, Eq, Structural)]
pub enum ChatMessageRole {
    /// Instructions or context for the model.
    System,
    /// The user's input.
    User,
    /// The model's answer.
    Assistant,
    /// The result of a tool call.
    Tool,
}

/// One message of a conversation.
#[derive(Debug)]
pub struct ChatMessage {
    /// Who speaks.
    pub role: ChatMessageRole,
    /// The text of the message.
    pub content: Option<String>,
    /// The calls the assistant asks for.
    pub tool_calls: Option<Vec<ToolCallRequest>>,
    /// The call that a tool message answers.
    pub tool_call_id: Option<String>,
}

/// The content of a [`ChatMessage`].
pub struct ChatMessageView {
    pub role: ChatMessageRole,
    pub content: Option<Seq<char>>,
    pub tool_calls: Option<Seq<ToolCallRequestView>>,
    pub tool_call_id: Option<Seq<char>>,
}

impl ChatMessageView {
    /// Whether the message carries what its role requires: a tool message names
    /// the call it answers and has content; any message may lack content only
    /// where it carries tool calls.
    pub open spec fn well_formed(self) -> bool {
        &&& self.role == ChatMessageRole::Tool ==> self.tool_call_id is Some && self.content is Some
        &&& self.content is None ==> self.tool_calls is Some
    }
}

impl View for ChatMessage {
    type V = ChatMessageView;

    open spec fn view(&self) -> ChatMessageView {
        ChatMessageView {
            role: self.role,
            content: self.content.deep_view(),
            tool_calls: self.tool_calls.deep_view(),
            tool_call_id: self.tool_call_id.deep_view(),
        }
    }
}

impl DeepView for ChatMessage {
    type V = ChatMessageView;

    open spec fn deep_view(&self) -> ChatMessageView {
        self@
    }
}

impl Clone for ChatMessage {
    fn clone(&self) -> (r: Self)
        ensures
            r@ == self@,
    {
        ChatMessage {
            role: self.role,
            content: clone_opt_string(&self.content),
            tool_calls: match &self.tool_calls {
                Some(calls) => Some(clone_tool_calls(calls)),
                None => None,
            },
            tool_call_id: clone_opt_string(&self.tool_call_id),
        }
    }
}

impl ChatMessage {
    /// A message with exactly the given parts.
    pub fn new(
        role: ChatMessageRole,
        content: Option<String>,
        tool_calls: Option<Vec<ToolCallRequest>>,
        tool_call_id: Option<String>,
    ) -> (r: Self)
        ensures
            r@ == (ChatMessageView {
                role,
                content: content.deep_view(),
                tool_calls: tool_calls.deep_view(),
                tool_call_id: tool_call_id.deep_view(),
            }),
    {
        ChatMessage { role, content, tool_calls, tool_call_id }
    }

    /// What the user says.
    pub fn user(content: String) -> (r: Self)
        ensures
            r@ == (ChatMessageView {
                role: ChatMessageRole::User,
                content: Some(content@),
                tool_calls: None,
                tool_call_id: None,
            }),
            r@.well_formed(),
    {
        ChatMessage {
            role: ChatMessageRole::User,
            content: Some(content),
            tool_calls: None,
            tool_call_id: None,
        }
    }

    /// Instructions for the model.
    pub fn system(content: String) -> (r: Self)
        ensures
            r@ == (ChatMessageView {
                role: ChatMessageRole::System,
                content: Some(content@),
                tool_calls: None,
                tool_call_id: None,
            }),
            r@.well_formed(),
    {
        ChatMessage {
            role: ChatMessageRole::System,
            content: Some(content),
            tool_calls: None,
            tool_call_id: None,
        }
    }

    /// What the model answered: text, tool calls, or both.
    pub fn assistant(content: Option<String>, tool_calls: Option<Vec<ToolCallRequest>>) -> (r:
        Self)
        ensures
            r@ == (ChatMessageView {
                role: ChatMessageRole::Assistant,
                content: content.deep_view(),
                tool_calls: tool_calls.deep_view(),
                tool_call_id: None,
            }),
            r@.well_formed() <==> (content is Some || tool_calls is Some),
    {
        ChatMessage { role: ChatMessageRole::Assistant, content, tool_calls, tool_call_id: None }
    }

    /// The result of the tool call `tool_call_id`.
    pub fn tool_result(tool_call_id: String, content: String) -> (r: Self)
        ensures
            r@ == (ChatMessageView {
                role: ChatMessageRole::Tool,
                content: Some(content@),
                tool_calls: None,
                tool_call_id: Some(tool_call_id@),
            }),
            r@.well_formed(),
    {
        ChatMessage {
            role: ChatMessageRole::Tool,
            content: Some(content),
            tool_calls: None,
            tool_call_id: Some(tool_call_id),
        }
    }
}

/// A copy of a list of messages.
pub fn clone_messages(messages: &Vec<ChatMessage>) -> (r: Vec<ChatMessage>)
    ensures
        r.deep_view() == messages.deep_view(),
{
    let mut out: Vec<ChatMessage> = Vec::new();
    let mut i: usize = 0;
    while i < messages.len()
        invariant
            i <= messages.len(),
            out@.len() == i,
            forall|j: int| 0 <= j < i ==> out@[j]@ == messages@[j]@,
        decreases messages.len() - i,
    {
        out.push(messages[i].clone());
        i = i + 1;
    }
    assert(out.deep_view() =~= messages.deep_view());
    out
}

/// A request for a chat completion.
#[derive(Debug)]
pub struct CompletionRequest {
    /// The conversation so far, oldest message first.
    pub messages: Vec<ChatMessage>,
    /// The model to ask.
    pub model: String,
    /// The sampling temperature, as the JSON number to send.
    pub temperature: Option<serde_json::Number>,
    /// The most tokens the model may generate.
    pub max_tokens: Option<u32>,
    /// The tools the model may call.
    pub tools: Option<Vec<Tool>>,
}

/// The content of a [`CompletionRequest`].
pub struct CompletionRequestView {
    pub messages: Seq<ChatMessageView>,
    pub model: Seq<char>,
    pub temperature: Option<serde_json::Number>,
    pub max_tokens: Option<u32>,
    pub tools: Option<Seq<ToolView>>,
}

impl View for CompletionRequest {
    type V = CompletionRequestView;

    open spec fn view(&self) -> CompletionRequestView {
        CompletionRequestView {
            messages: self.messages.deep_view(),
            model: self.model@,
            temperature: self.temperature,
            max_tokens: self.max_tokens,
            tools: self.tools.deep_view(),
        }
    }
}

impl Clone for CompletionRequest {
    fn clone(&self) -> (r: Self)
        ensures
            r@ == self@,
    {
        CompletionRequest {
            messages: clone_messages(&self.messages),
            model: self.model.clone(),
            temperature: match &self.temperature {
                Some(n) => Some(clone_number(n)),
                None => None,
            },
            max_tokens: self.max_tokens,
            tools: match &self.tools {
                Some(tools) => Some(clone_tools(tools)),
                None => None,
            },
        }
    }
}

impl CompletionRequest {
    /// A request with exactly the given parts.
    pub fn new(
        messages: Vec<ChatMessage>,
        model: String,
        temperature: Option<serde_json::Number>,
        max_tokens: Option<u32>,
        tools: Option<Vec<Tool>>,
    ) -> (r: Self)
        ensures
            r@ == (CompletionRequestView {
                messages: messages.deep_view(),
                model: model@,
                temperature,
                max_tokens,
                tools: tools.deep_view(),
            }),
    {
        CompletionRequest { messages, model, temperature, max_tokens, tools }
    }
}

/// How many tokens a request used.
#[derive(Debug, Clone, Copy, PartialEq, Eq, Structural)]
pub struct TokenUsage {
    /// Tokens of the prompt.
    pub prompt_tokens: u32,
    /// Tokens generated.
    pub completion_tokens: u32,
    /// Tokens in all.
    pub total_tokens: u32,
}

impl TokenUsage {
    /// Whether the total is the sum of the two parts.
    pub open spec fn consistent(self) -> bool {
        self.total_tokens == self.prompt_tokens + self.completion_tokens
    }
}

/// What a completion holds: text, or calls for the caller to make.
#[derive(Debug)]
pub enum CompletionKind {
    /// The model wrote text.
    Message { content: String },
    /// The model asks for tool calls.
    ToolCall { tool_calls: Vec<ToolCallRequest> },
}

/// The content of a [`CompletionKind`].
pub enum CompletionKindView {
    Message { content: Seq<char> },
    ToolCall { tool_calls: Seq<ToolCallRequestView> },
}

impl View for CompletionKind {
    type V = CompletionKindView;

    open spec fn view(&self) -> CompletionKindView {
        match self {
            CompletionKind::Message { content } => CompletionKindView::Message {
                content: content@,
            },
            CompletionKind::ToolCall { tool_calls } => CompletionKindView::ToolCall {
                tool_calls: tool_calls.deep_view(),
            },
        }
    }
}

impl Clone for CompletionKind {
    fn clone(&self) -> (r: Self)
        ensures
            r@ == self@,
    {
        match self {
            CompletionKind::Message { content } => CompletionKind::Message {
                content: content.clone(),
            },
            CompletionKind::ToolCall { tool_calls } => CompletionKind::ToolCall {
                tool_calls: clone_tool_calls(tool_calls),
            },
        }
    }
}

/// The answer to a request that does not stream.
#[derive(Debug)]
pub struct CompletionResponse {
    /// Text or tool calls.
    pub kind: CompletionKind,
    /// The tokens used, where the backend reports them.
    pub usage: Option<TokenUsage>,
    /// Why the model stopped, where the backend reports it.
    pub finish_reason: Option<String>,
}

/// The content of a [`CompletionResponse`].
pub struct CompletionResponseView {
    pub kind: CompletionKindView,
    pub usage: Option<TokenUsage>,
    pub finish_reason: Option<Seq<char>>,
}

impl View for CompletionResponse {
    type V = CompletionResponseView;

    open spec fn view(&self) -> CompletionResponseView {
        CompletionResponseView {
            kind: self.kind@,
            usage: self.usage,
            finish_reason: self.finish_reason.deep_view(),
        }
    }
}

impl Clone for CompletionResponse {
    fn clone(&self) -> (r: Self)
        ensures
            r@ == self@,
    {
        CompletionResponse {
            kind: self.kind.clone(),
            usage: self.usage,
            finish_reason: clone_opt_string(&self.finish_reason),
        }
    }
}

/// The part of a function call that one stream frame carries.
#[derive(Debug)]
pub struct ToolCallFunctionStreamDelta {
    /// The function's name, where the frame carries it.
    pub name: Option<String>,
    /// A fragment of the arguments' JSON text.
    pub arguments: Option<String>,
}

/// The content of a [`ToolCallFunctionStreamDelta`].
pub struct ToolCallFunctionStreamDeltaView {
    pub name: Option<Seq<char>>,
    pub arguments: Option<Seq<char>>,
}

impl View for ToolCallFunctionStreamDelta {
    type V = ToolCallFunctionStreamDeltaView;

    open spec fn view(&self) -> ToolCallFunctionStreamDeltaView {
        ToolCallFunctionStreamDeltaView {
            name: self.name.deep_view(),
            arguments: self.arguments.deep_view(),
        }
    }
}

impl DeepView for ToolCallFunctionStreamDelta {
    type V = ToolCallFunctionStreamDeltaView;

    open spec fn deep_view(&self) -> ToolCallFunctionStreamDeltaView {
        self@
    }
}

impl Clone for ToolCallFunctionStreamDelta {
    fn clone(&self) -> (r: Self)
        ensures
            r@ == self@,
    {
        ToolCallFunctionStreamDelta {
            name: clone_opt_string(&self.name),
            arguments: clone_opt_string(&self.arguments),
        }
    }
}

/// What is known of one tool call while a response streams. Fragments with the
/// same `index` belong to the same call.
#[derive(Debug)]
pub struct ToolCallStreamDelta {
    /// The call's position among the calls of this response.
    pub index: usize,
    /// The call's identifier, once a frame has carried it.
    pub id: Option<String>,
    /// The function and the arguments received so far.
    pub function: Option<ToolCallFunctionStreamDelta>,
}

/// The content of a [`ToolCallStreamDelta`].
pub struct ToolCallStreamDeltaView {
    pub index: usize,
    pub id: Option<Seq<char>>,
    pub function: Option<ToolCallFunctionStreamDeltaView>,
}

impl View for ToolCallStreamDelta {
    type V = ToolCallStreamDeltaView;

    open spec fn view(&self) -> ToolCallStreamDeltaView {
        ToolCallStreamDeltaView {
            index: self.index,
            id: self.id.deep_view(),
            function: self.function.deep_view(),
        }
    }
}

impl DeepView for ToolCallStreamDelta {
    type V = ToolCallStreamDeltaView;

    open spec fn deep_view(&self) -> ToolCallStreamDeltaView {
        self@
    }
}

impl Clone for ToolCallStreamDelta {
    fn clone(&self) -> (r: Self)
        ensures
            r@ == self@,
    {
        ToolCallStreamDelta {
            index: self.index,
            id: clone_opt_string(&self.id),
            function: match &self.function {
                Some(f) => Some(f.clone()),
                None => None,
            },
        }
    }
}

/// What one chunk of a stream adds.
#[derive(Debug)]
pub enum StreamContentDelta {
    /// More text.
    Text(String),
    /// The state of the tool calls that the frame touched.
    ToolCallDelta(Vec<ToolCallStreamDelta>),
}

/// The content of a [`StreamContentDelta`].
pub enum StreamContentDeltaView {
    Text(Seq<char>),
    ToolCallDelta(Seq<ToolCallStreamDeltaView>),
}

impl View for StreamContentDelta {
    type V = StreamContentDeltaView;

    open spec fn view(&self) -> StreamContentDeltaView {
        match self {
            StreamContentDelta::Text(s) => StreamContentDeltaView::Text(s@),
            StreamContentDelta::ToolCallDelta(d) => StreamContentDeltaView::ToolCallDelta(
                d.deep_view(),
            ),
        }
    }
}

/// One unit of a streamed completion.
#[derive(Debug)]
pub struct CompletionStreamChunk {
    /// What the chunk adds.
    pub delta: StreamContentDelta,
    /// The tokens used; backends send it with the last chunk, if at all.
    pub usage: Option<TokenUsage>,
    /// Why the model stopped; backends send it with the last chunk, if at all.
    pub finish_reason: Option<String>,
}

/// The content of a [`CompletionStreamChunk`].
pub struct CompletionStreamChunkView {
    pub delta: StreamContentDeltaView,
    pub usage: Option<TokenUsage>,
    pub finish_reason: Option<Seq<char>>,
}

impl View for CompletionStreamChunk {
    type V = CompletionStreamChunkView;

    open spec fn view(&self) -> CompletionStreamChunkView {
        CompletionStreamChunkView {
            delta: self.delta@,
            usage: self.usage,
            finish_reason: self.finish_reason.deep_view(),
        }
    }
}

impl DeepView for CompletionStreamChunk {
    type V = CompletionStreamChunkView;

    open spec fn deep_view(&self) -> CompletionStreamChunkView {
        self@
    }
}

/// What can go wrong between a request and its answer.
#[derive(Debug)]
pub enum ProviderError {
    /// The backend could not be reached.
    RequestError(String),
    /// The backend answered with a status that is not a success.
    ApiError { status: u16, message: String },
    /// The backend's answer has none of the expected shapes.
    ParseError(String),
    /// The configuration does not fit the provider.
    ConfigError(String),
    /// The stream broke off.
    StreamError(String),
    /// A required configuration value is missing.
    MissingConfig(String),
    /// The backend's tool-call payload is malformed.
    ToolFormatError(String),
    /// The provider does not implement what was asked.
    Unsupported(String),
    /// An internal invariant does not hold.
    Unexpected(String),
}

/// The content of a [`ProviderError`].
pub enum ProviderErrorView {
    RequestError(Seq<char>),
    ApiError { status: u16, message: Seq<char> },
    ParseError(Seq<char>),
    ConfigError(Seq<char>),
    StreamError(Seq<char>),
    MissingConfig(Seq<char>),
    ToolFormatError(Seq<char>),
    Unsupported(Seq<char>),
    Unexpected(Seq<char>),
}

impl View for ProviderError {
    type V = ProviderErrorView;

    open spec fn view(&self) -> ProviderErrorView {
        match self {
            ProviderError::RequestError(s) => ProviderErrorView::RequestError(s@),
            ProviderError::ApiError { status, message } => ProviderErrorView::ApiError {
                status: *status,
                message: message@,
            },
            ProviderError::ParseError(s) => ProviderErrorView::ParseError(s@),
            ProviderError::ConfigError(s) => ProviderErrorView::ConfigError(s@),
            ProviderError::StreamError(s) => ProviderErrorView::StreamError(s@),
            ProviderError::MissingConfig(s) => ProviderErrorView::MissingConfig(s@),
            ProviderError::ToolFormatError(s) => ProviderErrorView::ToolFormatError(s@),
            ProviderError::Unsupported(s) => ProviderErrorView::Unsupported(s@),
            ProviderError::Unexpected(s) => ProviderErrorView::Unexpected(s@),
        }
    }
}

impl DeepView for ProviderError {
    type V = ProviderErrorView;

    open spec fn deep_view(&self) -> ProviderErrorView {
        self@
    }
}


impl DeepView for CompletionResponse {
    type V = CompletionResponseView;

    open spec fn deep_view(&self) -> CompletionResponseView {
        self@
    }
}

/// The content of what a provider hands back: the content of the value, or
/// the content of the error.
pub open spec fn outcome<T: DeepView>(r: Result<T, ProviderError>) -> Result<T::V, ProviderErrorView> {
    match r {
        Ok(v) => Ok(v.deep_view()),
        Err(e) => Err(e@),
    }
}


impl ProviderErrorView {
    /// The text of the error.
    pub open spec fn message(self) -> Seq<char> {
        match self {
            ProviderErrorView::RequestError(s) => "API request failed: "@ + s,
            ProviderErrorView::ApiError { status, message } => "API response error: "@
                + decimal_text(status as nat) + ": "@ + message,
            ProviderErrorView::ParseError(s) => "Failed to parse API response: "@ + s,
            ProviderErrorView::ConfigError(s) => "Configuration error: "@ + s,
            ProviderErrorView::StreamError(s) => "Stream failed: "@ + s,
            ProviderErrorView::MissingConfig(s) => "Missing required configuration: "@ + s,
            ProviderErrorView::ToolFormatError(s) => "Tool use response format error: "@ + s,
            ProviderErrorView::Unsupported(s) => "Unsupported operation: "@ + s,
            ProviderErrorView::Unexpected(s) => "An unexpected error occurred: "@ + s,
        }
    }
}

fn prefixed(prefix: &str, detail: &String) -> (r: String)
    ensures
        r@ == prefix@ + detail@,
{
    let mut s = prefix.to_owned();
    s.append(detail.as_str());
    s
}

impl ProviderError {
    /// The text of the error, for display.
    pub fn message(&self) -> (r: String)
        ensures
            r@ == self@.message(),
    {
        match self {
            ProviderError::RequestError(s) => prefixed("API request failed: ", s),
            ProviderError::ApiError { status, message } => {
                let mut s = "API response error: ".to_owned();
                s.append(decimal_string(*status as u64).as_str());
                s.append(": ");
                s.append(message.as_str());
                s
            },
            ProviderError::ParseError(s) => prefixed("Failed to parse API response: ", s),
            ProviderError::ConfigError(s) => prefixed("Configuration error: ", s),
            ProviderError::StreamError(s) => prefixed("Stream failed: ", s),
            ProviderError::MissingConfig(s) => prefixed("Missing required configuration: ", s),
            ProviderError::ToolFormatError(s) => prefixed("Tool use response format error: ", s),
            ProviderError::Unsupported(s) => prefixed("Unsupported operation: ", s),
            ProviderError::Unexpected(s) => prefixed("An unexpected error occurred: ", s),
        }
    }
}

} // verus!
