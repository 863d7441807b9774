//! The shapes of the Ollama chat protocol, as far as this crate reads them.

use vstd::prelude::*;
use crate::json::{as_array, as_object, clone_value, json_of, jsons_of, members_of, JsonValue};
use crate::traits::{ChatMessage, ChatMessageView};
use crate::wire::{
    array_with, decode_message, get_member, get_optional_text, get_optional_u32,
    get_optional_u64, get_present, get_required_bool, get_required_text, member, members,
    message_of, optional_text, optional_u32, optional_u64, optional_with, present,
    required_bool, required_text, required_with,
};

verus! {

/// What every Ollama response says of itself: whether the answer is complete,
/// and the token counts where the backend reports them.
#[derive(Debug, Clone, Copy, PartialEq, Eq, Structural)]
pub struct OllamaMeta {
    pub done: bool,
    pub prompt_eval_count: Option<u32>,
    pub eval_count: Option<u32>,
}

/// The function of a tool call as the model writes it: the arguments are any
/// JSON value.
#[derive(Debug)]
pub struct OllamaToolFunction {
    pub name: String,
    pub arguments: serde_json::Value,
}

/// The content of an [`OllamaToolFunction`].
pub struct OllamaToolFunctionView {
    pub name: Seq<char>,
    pub arguments: JsonValue,
}

impl View for OllamaToolFunction {
    type V = OllamaToolFunctionView;

    open spec fn view(&self) -> OllamaToolFunctionView {
        OllamaToolFunctionView { name: self.name@, arguments: json_of(self.arguments) }
    }
}

impl DeepView for OllamaToolFunction {
    type V = OllamaToolFunctionView;

    open spec fn deep_view(&self) -> OllamaToolFunctionView {
        self@
    }
}

/// A tool call as the model writes it.
#[derive(Debug)]
pub struct OllamaToolCall {
    pub id: String,
    pub function: OllamaToolFunction,
}

/// The content of an [`OllamaToolCall`].
pub struct OllamaToolCallView {
    pub id: Seq<char>,
    pub function: OllamaToolFunctionView,
}

impl View for OllamaToolCall {
    type V = OllamaToolCallView;

    open spec fn view(&self) -> OllamaToolCallView {
        OllamaToolCallView { id: self.id@, function: self.function@ }
    }
}

impl DeepView for OllamaToolCall {
    type V = OllamaToolCallView;

    open spec fn deep_view(&self) -> OllamaToolCallView {
        self@
    }
}

/// The object with which the model asks for tool calls.
#[derive(Debug)]
pub struct OllamaToolCallPayload {
    pub tool_calls: Vec<OllamaToolCall>,
}

/// The content of an [`OllamaToolCallPayload`].
pub struct OllamaToolCallPayloadView {
    pub tool_calls: Seq<OllamaToolCallView>,
}

impl View for OllamaToolCallPayload {
    type V = OllamaToolCallPayloadView;

    open spec fn view(&self) -> OllamaToolCallPayloadView {
        OllamaToolCallPayloadView { tool_calls: self.tool_calls.deep_view() }
    }
}

impl DeepView for OllamaToolCallPayload {
    type V = OllamaToolCallPayloadView;

    open spec fn deep_view(&self) -> OllamaToolCallPayloadView {
        self@
    }
}

/// The body of a response in strict-JSON mode.
#[derive(Debug)]
pub struct OllamaJsonResponse {
    pub meta: OllamaMeta,
    pub message: Option<ChatMessage>,
    pub tool_calls: Option<Vec<OllamaToolCall>>,
}

/// The content of an [`OllamaJsonResponse`].
pub struct OllamaJsonResponseView {
    pub meta: OllamaMeta,
    pub message: Option<ChatMessageView>,
    pub tool_calls: Option<Seq<OllamaToolCallView>>,
}

impl View for OllamaJsonResponse {
    type V = OllamaJsonResponseView;

    open spec fn view(&self) -> OllamaJsonResponseView {
        OllamaJsonResponseView {
            meta: self.meta,
            message: self.message.deep_view(),
            tool_calls: self.tool_calls.deep_view(),
        }
    }
}

impl DeepView for OllamaJsonResponse {
    type V = OllamaJsonResponseView;

    open spec fn deep_view(&self) -> OllamaJsonResponseView {
        self@
    }
}

/// The body of a response outside strict-JSON mode.
#[derive(Debug)]
pub struct OllamaStandardResponse {
    pub meta: OllamaMeta,
    pub message: ChatMessage,
}

/// The content of an [`OllamaStandardResponse`].
pub struct OllamaStandardResponseView {
    pub meta: OllamaMeta,
    pub message: ChatMessageView,
}

impl View for OllamaStandardResponse {
    type V = OllamaStandardResponseView;

    open spec fn view(&self) -> OllamaStandardResponseView {
        OllamaStandardResponseView { meta: self.meta, message: self.message@ }
    }
}

impl DeepView for OllamaStandardResponse {
    type V = OllamaStandardResponseView;

    open spec fn deep_view(&self) -> OllamaStandardResponseView {
        self@
    }
}

/// One line of a streamed response.
#[derive(Debug)]
pub struct OllamaChatStreamResponse {
    pub meta: OllamaMeta,
    pub content: String,
    pub done_reason: Option<String>,
}

/// The content of an [`OllamaChatStreamResponse`].
pub struct OllamaChatStreamResponseView {
    pub meta: OllamaMeta,
    pub content: Seq<char>,
    pub done_reason: Option<Seq<char>>,
}

impl View for OllamaChatStreamResponse {
    type V = OllamaChatStreamResponseView;

    open spec fn view(&self) -> OllamaChatStreamResponseView {
        OllamaChatStreamResponseView {
            meta: self.meta,
            content: self.content@,
            done_reason: self.done_reason.deep_view(),
        }
    }
}

impl DeepView for OllamaChatStreamResponse {
    type V = OllamaChatStreamResponseView;

    open spec fn deep_view(&self) -> OllamaChatStreamResponseView {
        self@
    }
}

/// Whether the four durations that a response may report are numbers where
/// they are present.
pub open spec fn durations_valid(m: Map<Seq<char>, JsonValue>) -> bool {
    &&& optional_u64(m, "total_duration"@) is Some
    &&& optional_u64(m, "load_duration"@) is Some
    &&& optional_u64(m, "prompt_eval_duration"@) is Some
    &&& optional_u64(m, "eval_duration"@) is Some
}

/// What the members of a response say of it: the strings `model` and
/// `created_at` and the boolean `done` must be there, the counts and the
/// durations may be.
pub open spec fn meta_of(m: Map<Seq<char>, JsonValue>) -> Option<OllamaMeta> {
    match (
        required_text(m, "model"@),
        required_text(m, "created_at"@),
        required_bool(m, "done"@),
        optional_u32(m, "prompt_eval_count"@),
        optional_u32(m, "eval_count"@),
    ) {
        (Some(_), Some(_), Some(done), Some(prompt_eval_count), Some(eval_count)) => if durations_valid(
            m,
        ) {
            Some(OllamaMeta { done, prompt_eval_count, eval_count })
        } else {
            None
        },
        _ => None,
    }
}

/// The function that a JSON value describes: an object with the string `name`
/// and any value as `arguments`.
pub open spec fn ollama_function_of(j: JsonValue) -> Option<OllamaToolFunctionView> {
    match members(j) {
        Some(m) => match (required_text(m, "name"@), member(m, "arguments"@)) {
            (Some(name), Some(arguments)) => Some(OllamaToolFunctionView { name, arguments }),
            _ => None,
        },
        None => None,
    }
}

/// The tool call that a JSON value describes: an object with the string `id`
/// and the function `function`.
pub open spec fn ollama_tool_call_of(j: JsonValue) -> Option<OllamaToolCallView> {
    match members(j) {
        Some(m) => match (
            required_text(m, "id"@),
            required_with(member(m, "function"@), |f: JsonValue| ollama_function_of(f)),
        ) {
            (Some(id), Some(function)) => Some(OllamaToolCallView { id, function }),
            _ => None,
        },
        None => None,
    }
}

/// The tool-call payload that a JSON value describes: an object with the
/// array `tool_calls`.
pub open spec fn payload_of(j: JsonValue) -> Option<OllamaToolCallPayloadView> {
    match members(j) {
        Some(m) => match required_with(
            member(m, "tool_calls"@),
            |a: JsonValue| array_with(a, |c: JsonValue| ollama_tool_call_of(c)),
        ) {
            Some(tool_calls) => Some(OllamaToolCallPayloadView { tool_calls }),
            None => None,
        },
        None => None,
    }
}

/// The strict-JSON response that a JSON value describes: an object that says
/// of itself what every response says, and may have the message `message`
/// and the array `tool_calls`.
pub open spec fn json_response_of(j: JsonValue) -> Option<OllamaJsonResponseView> {
    match members(j) {
        Some(m) => match (
            meta_of(m),
            optional_with(present(m, "message"@), |x: JsonValue| message_of(x)),
            optional_with(
                present(m, "tool_calls"@),
                |a: JsonValue| array_with(a, |c: JsonValue| ollama_tool_call_of(c)),
            ),
        ) {
            (Some(meta), Some(message), Some(tool_calls)) => Some(
                OllamaJsonResponseView { meta, message, tool_calls },
            ),
            _ => None,
        },
        None => None,
    }
}

/// The plain response that a JSON value describes: an object that says of
/// itself what every response says, with the message `message`.
pub open spec fn standard_response_of(j: JsonValue) -> Option<OllamaStandardResponseView> {
    match members(j) {
        Some(m) => match (
            meta_of(m),
            required_with(member(m, "message"@), |x: JsonValue| message_of(x)),
        ) {
            (Some(meta), Some(message)) => Some(OllamaStandardResponseView { meta, message }),
            _ => None,
        },
        None => None,
    }
}

/// The text of a streamed message: an object with the strings `role` and
/// `content`.
pub open spec fn stream_content_of(j: JsonValue) -> Option<Seq<char>> {
    match members(j) {
        Some(m) => match (required_text(m, "role"@), required_text(m, "content"@)) {
            (Some(_), Some(content)) => Some(content),
            _ => None,
        },
        None => None,
    }
}

/// The line of a stream that a JSON value describes: an object that says of
/// itself what every response says, with the message `message`, which may
/// have the string `done_reason`.
pub open spec fn stream_line_of(j: JsonValue) -> Option<OllamaChatStreamResponseView> {
    match members(j) {
        Some(m) => match (
            meta_of(m),
            required_with(member(m, "message"@), |x: JsonValue| stream_content_of(x)),
            optional_text(m, "done_reason"@),
        ) {
            (Some(meta), Some(content), Some(done_reason)) => Some(
                OllamaChatStreamResponseView { meta, content, done_reason },
            ),
            _ => None,
        },
        None => None,
    }
}

/// Reads what a response says of itself.
pub fn decode_meta(m: &serde_json::Map<String, serde_json::Value>) -> (r: Option<OllamaMeta>)
    ensures
        r == meta_of(members_of(*m)),
{
    let _model = get_required_text(m, "model")?;
    let _created_at = get_required_text(m, "created_at")?;
    let done = get_required_bool(m, "done")?;
    let prompt_eval_count = get_optional_u32(m, "prompt_eval_count")?;
    let eval_count = get_optional_u32(m, "eval_count")?;
    let _total = get_optional_u64(m, "total_duration")?;
    let _load = get_optional_u64(m, "load_duration")?;
    let _prompt = get_optional_u64(m, "prompt_eval_duration")?;
    let _eval = get_optional_u64(m, "eval_duration")?;
    Some(OllamaMeta { done, prompt_eval_count, eval_count })
}

/// Reads the function of a tool call.
pub fn decode_ollama_function(v: &serde_json::Value) -> (r: Option<OllamaToolFunction>)
    ensures
        r.deep_view() == ollama_function_of(json_of(*v)),
{
    let m = as_object(v)?;
    let name = get_required_text(m, "name")?;
    let arguments = get_member(m, "arguments")?;
    Some(OllamaToolFunction { name, arguments: clone_value(arguments) })
}

/// Reads a tool call.
pub fn decode_ollama_tool_call(v: &serde_json::Value) -> (r: Option<OllamaToolCall>)
    ensures
        r.deep_view() == ollama_tool_call_of(json_of(*v)),
{
    let m = as_object(v)?;
    let id = get_required_text(m, "id")?;
    let f = get_member(m, "function")?;
    let function = decode_ollama_function(f)?;
    Some(OllamaToolCall { id, function })
}

/// Reads an array of tool calls.
pub fn decode_ollama_tool_calls(v: &serde_json::Value) -> (r: Option<Vec<OllamaToolCall>>)
    ensures
        r.deep_view() == array_with(json_of(*v), |c: JsonValue| ollama_tool_call_of(c)),
{
    let items = as_array(v)?;
    let ghost trees = jsons_of(items@);
    let ghost f = |c: JsonValue| ollama_tool_call_of(c);
    let mut out: Vec<OllamaToolCall> = Vec::new();
    let mut i: usize = 0;
    while i < items.len()
        invariant
            i <= items@.len(),
            trees == jsons_of(items@),
            json_of(*v) == JsonValue::Array(trees),
            f == |c: JsonValue| ollama_tool_call_of(c),
            out@.len() == i,
            forall|j: int| 0 <= j < i ==> (#[trigger] f(trees[j])) == Some(out@[j]@),
        decreases items@.len() - i,
    {
        assert(trees[i as int] == json_of(items@[i as int]));
        match decode_ollama_tool_call(&items[i]) {
            Some(c) => {
                out.push(c);
            },
            None => {
                assert(f(trees[i as int]) is None);
                return None;
            },
        }
        i = i + 1;
    }
    assert(out.deep_view() =~= Seq::new(trees.len(), |i: int| f(trees[i])->0));
    Some(out)
}

/// Reads a tool-call payload.
pub fn decode_payload(v: &serde_json::Value) -> (r: Option<OllamaToolCallPayload>)
    ensures
        r.deep_view() == payload_of(json_of(*v)),
{
    let m = as_object(v)?;
    let a = get_member(m, "tool_calls")?;
    let tool_calls = decode_ollama_tool_calls(a)?;
    Some(OllamaToolCallPayload { tool_calls })
}

/// Reads a response in strict-JSON mode.
pub fn decode_json_response(v: &serde_json::Value) -> (r: Option<OllamaJsonResponse>)
    ensures
        r.deep_view() == json_response_of(json_of(*v)),
{
    let m = as_object(v)?;
    let meta = decode_meta(m)?;
    let message = match get_present(m, "message") {
        Some(x) => Some(decode_message(x)?),
        None => None,
    };
    let tool_calls = match get_present(m, "tool_calls") {
        Some(a) => Some(decode_ollama_tool_calls(a)?),
        None => None,
    };
    Some(OllamaJsonResponse { meta, message, tool_calls })
}

/// Reads a response outside strict-JSON mode.
pub fn decode_standard_response(v: &serde_json::Value) -> (r: Option<OllamaStandardResponse>)
    ensures
        r.deep_view() == standard_response_of(json_of(*v)),
{
    let m = as_object(v)?;
    let meta = decode_meta(m)?;
    let x = get_member(m, "message")?;
    let message = decode_message(x)?;
    Some(OllamaStandardResponse { meta, message })
}

/// Reads the text of a streamed message.
pub fn decode_stream_content(v: &serde_json::Value) -> (r: Option<String>)
    ensures
        r.deep_view() == stream_content_of(json_of(*v)),
{
    let m = as_object(v)?;
    let _role = get_required_text(m, "role")?;
    get_required_text(m, "content")
}

/// Reads a line of a stream.
pub fn decode_stream_line(v: &serde_json::Value) -> (r: Option<OllamaChatStreamResponse>)
    ensures
        r.deep_view() == stream_line_of(json_of(*v)),
{
    let m = as_object(v)?;
    let meta = decode_meta(m)?;
    let x = get_member(m, "message")?;
    let content = decode_stream_content(x)?;
    let done_reason = get_optional_text(m, "done_reason")?;
    Some(OllamaChatStreamResponse { meta, content, done_reason })
}

} // verus!
