//! The shapes of the OpenAI chat-completion protocol, as far as this crate
//! reads them.

use vstd::prelude::*;
use crate::json::{as_array, as_object, json_of, jsons_of, members_of, JsonValue};
use crate::traits::{
    ToolCallFunction, ToolCallFunctionStreamDelta, ToolCallFunctionStreamDeltaView,
    ToolCallFunctionView, ToolCallStreamDelta, ToolCallStreamDeltaView,
};
use crate::wire::{
    array_with, decode_function, function_of, get_member, get_optional_text,
    get_present, get_required_text, get_required_u32, member, members, optional_text,
    optional_with, present, read_usize, required_text, required_u32, required_with, usize_of,
};

verus! {

/// The token counts of a response.
#[derive(Debug, Clone, Copy, PartialEq, Eq, Structural)]
pub struct OpenAIUsage {
    pub prompt_tokens: u32,
    pub completion_tokens: u32,
    pub total_tokens: u32,
}

/// A tool call of a response: its identifier and the function to call.
#[derive(Debug)]
pub struct OpenAIToolCall {
    pub id: String,
    pub function: ToolCallFunction,
}

/// The content of an [`OpenAIToolCall`].
pub struct OpenAIToolCallView {
    pub id: Seq<char>,
    pub function: ToolCallFunctionView,
}

impl View for OpenAIToolCall {
    type V = OpenAIToolCallView;

    open spec fn view(&self) -> OpenAIToolCallView {
        OpenAIToolCallView { id: self.id@, function: self.function@ }
    }
}

impl DeepView for OpenAIToolCall {
    type V = OpenAIToolCallView;

    open spec fn deep_view(&self) -> OpenAIToolCallView {
        self@
    }
}

/// The message of a choice.
#[derive(Debug)]
pub struct OpenAIMessage {
    pub content: Option<String>,
    pub tool_calls: Option<Vec<OpenAIToolCall>>,
}

/// The content of an [`OpenAIMessage`].
pub struct OpenAIMessageView {
    pub content: Option<Seq<char>>,
    pub tool_calls: Option<Seq<OpenAIToolCallView>>,
}

impl View for OpenAIMessage {
    type V = OpenAIMessageView;

    open spec fn view(&self) -> OpenAIMessageView {
        OpenAIMessageView {
            content: self.content.deep_view(),
            tool_calls: self.tool_calls.deep_view(),
        }
    }
}

impl DeepView for OpenAIMessage {
    type V = OpenAIMessageView;

    open spec fn deep_view(&self) -> OpenAIMessageView {
        self@
    }
}

/// One of the answers a response offers.
#[derive(Debug)]
pub struct OpenAIChoice {
    pub message: OpenAIMessage,
    pub finish_reason: Option<String>,
}

/// The content of an [`OpenAIChoice`].
pub struct OpenAIChoiceView {
    pub message: OpenAIMessageView,
    pub finish_reason: Option<Seq<char>>,
}

impl View for OpenAIChoice {
    type V = OpenAIChoiceView;

    open spec fn view(&self) -> OpenAIChoiceView {
        OpenAIChoiceView {
            message: self.message@,
            finish_reason: self.finish_reason.deep_view(),
        }
    }
}

impl DeepView for OpenAIChoice {
    type V = OpenAIChoiceView;

    open spec fn deep_view(&self) -> OpenAIChoiceView {
        self@
    }
}

/// The body of a response that does not stream.
#[derive(Debug)]
pub struct OpenAIChatResponse {
    pub choices: Vec<OpenAIChoice>,
    pub usage: Option<OpenAIUsage>,
}

/// The content of an [`OpenAIChatResponse`].
pub struct OpenAIChatResponseView {
    pub choices: Seq<OpenAIChoiceView>,
    pub usage: Option<OpenAIUsage>,
}

impl View for OpenAIChatResponse {
    type V = OpenAIChatResponseView;

    open spec fn view(&self) -> OpenAIChatResponseView {
        OpenAIChatResponseView { choices: self.choices.deep_view(), usage: self.usage }
    }
}

impl DeepView for OpenAIChatResponse {
    type V = OpenAIChatResponseView;

    open spec fn deep_view(&self) -> OpenAIChatResponseView {
        self@
    }
}

/// What one frame of a stream adds to a choice.
#[derive(Debug)]
pub struct OpenAIStreamDelta {
    pub content: Option<String>,
    pub tool_calls: Option<Vec<ToolCallStreamDelta>>,
}

/// The content of an [`OpenAIStreamDelta`].
pub struct OpenAIStreamDeltaView {
    pub content: Option<Seq<char>>,
    pub tool_calls: Option<Seq<ToolCallStreamDeltaView>>,
}

impl View for OpenAIStreamDelta {
    type V = OpenAIStreamDeltaView;

    open spec fn view(&self) -> OpenAIStreamDeltaView {
        OpenAIStreamDeltaView {
            content: self.content.deep_view(),
            tool_calls: self.tool_calls.deep_view(),
        }
    }
}

impl DeepView for OpenAIStreamDelta {
    type V = OpenAIStreamDeltaView;

    open spec fn deep_view(&self) -> OpenAIStreamDeltaView {
        self@
    }
}

/// One of the choices of a frame.
#[derive(Debug)]
pub struct OpenAIStreamChoice {
    pub delta: OpenAIStreamDelta,
    pub finish_reason: Option<String>,
}

/// The content of an [`OpenAIStreamChoice`].
pub struct OpenAIStreamChoiceView {
    pub delta: OpenAIStreamDeltaView,
    pub finish_reason: Option<Seq<char>>,
}

impl View for OpenAIStreamChoice {
    type V = OpenAIStreamChoiceView;

    open spec fn view(&self) -> OpenAIStreamChoiceView {
        OpenAIStreamChoiceView {
            delta: self.delta@,
            finish_reason: self.finish_reason.deep_view(),
        }
    }
}

impl DeepView for OpenAIStreamChoice {
    type V = OpenAIStreamChoiceView;

    open spec fn deep_view(&self) -> OpenAIStreamChoiceView {
        self@
    }
}

/// One frame of a stream.
#[derive(Debug)]
pub struct OpenAIChatStreamResponse {
    pub choices: Vec<OpenAIStreamChoice>,
    pub usage: Option<OpenAIUsage>,
}

/// The content of an [`OpenAIChatStreamResponse`].
pub struct OpenAIChatStreamResponseView {
    pub choices: Seq<OpenAIStreamChoiceView>,
    pub usage: Option<OpenAIUsage>,
}

impl View for OpenAIChatStreamResponse {
    type V = OpenAIChatStreamResponseView;

    open spec fn view(&self) -> OpenAIChatStreamResponseView {
        OpenAIChatStreamResponseView { choices: self.choices.deep_view(), usage: self.usage }
    }
}

impl DeepView for OpenAIChatStreamResponse {
    type V = OpenAIChatStreamResponseView;

    open spec fn deep_view(&self) -> OpenAIChatStreamResponseView {
        self@
    }
}

/// The token counts that a JSON value describes: an object with the three
/// counts.
pub open spec fn usage_of(j: JsonValue) -> Option<OpenAIUsage> {
    match members(j) {
        Some(m) => match (
            required_u32(m, "prompt_tokens"@),
            required_u32(m, "completion_tokens"@),
            required_u32(m, "total_tokens"@),
        ) {
            (Some(prompt_tokens), Some(completion_tokens), Some(total_tokens)) => Some(
                OpenAIUsage { prompt_tokens, completion_tokens, total_tokens },
            ),
            _ => None,
        },
        None => None,
    }
}

/// The tool call that a JSON value describes: an object with the string `id`
/// and the function `function`.
pub open spec fn openai_tool_call_of(j: JsonValue) -> Option<OpenAIToolCallView> {
    match members(j) {
        Some(m) => match (
            required_text(m, "id"@),
            required_with(member(m, "function"@), |f: JsonValue| function_of(f)),
        ) {
            (Some(id), Some(function)) => Some(OpenAIToolCallView { id, function }),
            _ => None,
        },
        None => None,
    }
}

/// The message that a JSON value describes: an object that may have the
/// string `content` and the array `tool_calls`.
pub open spec fn openai_message_of(j: JsonValue) -> Option<OpenAIMessageView> {
    match members(j) {
        Some(m) => match (
            optional_text(m, "content"@),
            optional_with(
                present(m, "tool_calls"@),
                |a: JsonValue| array_with(a, |c: JsonValue| openai_tool_call_of(c)),
            ),
        ) {
            (Some(content), Some(tool_calls)) => Some(OpenAIMessageView { content, tool_calls }),
            _ => None,
        },
        None => None,
    }
}

/// The choice that a JSON value describes: an object with the message
/// `message`, which may have the string `finish_reason`.
pub open spec fn choice_of(j: JsonValue) -> Option<OpenAIChoiceView> {
    match members(j) {
        Some(m) => match (
            required_with(member(m, "message"@), |x: JsonValue| openai_message_of(x)),
            optional_text(m, "finish_reason"@),
        ) {
            (Some(message), Some(finish_reason)) => Some(
                OpenAIChoiceView { message, finish_reason },
            ),
            _ => None,
        },
        None => None,
    }
}

/// The response that a JSON value describes: an object with the array
/// `choices`, which may have the counts `usage`.
pub open spec fn chat_response_of(j: JsonValue) -> Option<OpenAIChatResponseView> {
    match members(j) {
        Some(m) => match (
            required_with(
                member(m, "choices"@),
                |a: JsonValue| array_with(a, |c: JsonValue| choice_of(c)),
            ),
            optional_with(present(m, "usage"@), |u: JsonValue| usage_of(u)),
        ) {
            (Some(choices), Some(usage)) => Some(OpenAIChatResponseView { choices, usage }),
            _ => None,
        },
        None => None,
    }
}

/// The part of a function call that a JSON value describes: an object that
/// may have the strings `name` and `arguments`.
pub open spec fn function_fragment_of(j: JsonValue) -> Option<ToolCallFunctionStreamDeltaView> {
    match members(j) {
        Some(m) => match (optional_text(m, "name"@), optional_text(m, "arguments"@)) {
            (Some(name), Some(arguments)) => Some(
                ToolCallFunctionStreamDeltaView { name, arguments },
            ),
            _ => None,
        },
        None => None,
    }
}

/// The part of a tool call that a JSON value describes: an object with the
/// number `index`, which may have the string `id` and the part `function`.
pub open spec fn fragment_of(j: JsonValue) -> Option<ToolCallStreamDeltaView> {
    match members(j) {
        Some(m) => match (
            required_with(member(m, "index"@), |x: JsonValue| usize_of(x)),
            optional_text(m, "id"@),
            optional_with(present(m, "function"@), |f: JsonValue| function_fragment_of(f)),
        ) {
            (Some(index), Some(id), Some(function)) => Some(
                ToolCallStreamDeltaView { index, id, function },
            ),
            _ => None,
        },
        None => None,
    }
}

/// What a JSON value says a frame adds: an object that may have the string
/// `content` and the array `tool_calls`.
pub open spec fn stream_delta_of(j: JsonValue) -> Option<OpenAIStreamDeltaView> {
    match members(j) {
        Some(m) => match (
            optional_text(m, "content"@),
            optional_with(
                present(m, "tool_calls"@),
                |a: JsonValue| array_with(a, |c: JsonValue| fragment_of(c)),
            ),
        ) {
            (Some(content), Some(tool_calls)) => Some(
                OpenAIStreamDeltaView { content, tool_calls },
            ),
            _ => None,
        },
        None => None,
    }
}

/// The choice of a frame that a JSON value describes: an object with `delta`,
/// which may have the string `finish_reason`.
pub open spec fn stream_choice_of(j: JsonValue) -> Option<OpenAIStreamChoiceView> {
    match members(j) {
        Some(m) => match (
            required_with(member(m, "delta"@), |x: JsonValue| stream_delta_of(x)),
            optional_text(m, "finish_reason"@),
        ) {
            (Some(delta), Some(finish_reason)) => Some(
                OpenAIStreamChoiceView { delta, finish_reason },
            ),
            _ => None,
        },
        None => None,
    }
}

/// The frame that a JSON value describes: an object with the array `choices`,
/// which may have the counts `usage`.
pub open spec fn stream_response_of(j: JsonValue) -> Option<OpenAIChatStreamResponseView> {
    match members(j) {
        Some(m) => match (
            required_with(
                member(m, "choices"@),
                |a: JsonValue| array_with(a, |c: JsonValue| stream_choice_of(c)),
            ),
            optional_with(present(m, "usage"@), |u: JsonValue| usage_of(u)),
        ) {
            (Some(choices), Some(usage)) => Some(OpenAIChatStreamResponseView { choices, usage }),
            _ => None,
        },
        None => None,
    }
}

/// Reads token counts.
pub fn decode_usage(v: &serde_json::Value) -> (r: Option<OpenAIUsage>)
    ensures
        r == usage_of(json_of(*v)),
{
    let m = as_object(v)?;
    let prompt_tokens = get_required_u32(m, "prompt_tokens")?;
    let completion_tokens = get_required_u32(m, "completion_tokens")?;
    let total_tokens = get_required_u32(m, "total_tokens")?;
    Some(OpenAIUsage { prompt_tokens, completion_tokens, total_tokens })
}

/// Reads token counts that a shape allows.
pub fn decode_optional_usage(m: &serde_json::Map<String, serde_json::Value>) -> (r: Option<
    Option<OpenAIUsage>,
>)
    ensures
        r == optional_with(
            present(members_of(*m), "usage"@),
            |u: JsonValue| usage_of(u),
        ),
{
    match get_present(m, "usage") {
        Some(u) => Some(Some(decode_usage(u)?)),
        None => Some(None),
    }
}

/// Reads a tool call.
pub fn decode_openai_tool_call(v: &serde_json::Value) -> (r: Option<OpenAIToolCall>)
    ensures
        r.deep_view() == openai_tool_call_of(json_of(*v)),
{
    let m = as_object(v)?;
    let id = get_required_text(m, "id")?;
    let f = get_member(m, "function")?;
    let function = decode_function(f)?;
    Some(OpenAIToolCall { id, function })
}

/// Reads an array of tool calls.
pub fn decode_openai_tool_calls(v: &serde_json::Value) -> (r: Option<Vec<OpenAIToolCall>>)
    ensures
        r.deep_view() == array_with(json_of(*v), |c: JsonValue| openai_tool_call_of(c)),
{
    let items = as_array(v)?;
    let ghost trees = jsons_of(items@);
    let ghost f = |c: JsonValue| openai_tool_call_of(c);
    let mut out: Vec<OpenAIToolCall> = Vec::new();
    let mut i: usize = 0;
    while i < items.len()
        invariant
            i <= items@.len(),
            trees == jsons_of(items@),
            json_of(*v) == JsonValue::Array(trees),
            f == |c: JsonValue| openai_tool_call_of(c),
            out@.len() == i,
            forall|j: int| 0 <= j < i ==> (#[trigger] f(trees[j])) == Some(out@[j]@),
        decreases items@.len() - i,
    {
        assert(trees[i as int] == json_of(items@[i as int]));
        match decode_openai_tool_call(&items[i]) {
            Some(c) => {
                out.push(c);
            },
            None => {
                assert(f(trees[i as int]) is None);
                return None;
            },
        }
        i = i + 1;
    }
    assert(out.deep_view() =~= Seq::new(trees.len(), |i: int| f(trees[i])->0));
    Some(out)
}

/// Reads the message of a choice.
pub fn decode_openai_message(v: &serde_json::Value) -> (r: Option<OpenAIMessage>)
    ensures
        r.deep_view() == openai_message_of(json_of(*v)),
{
    let m = as_object(v)?;
    let content = get_optional_text(m, "content")?;
    let tool_calls = match get_present(m, "tool_calls") {
        Some(a) => Some(decode_openai_tool_calls(a)?),
        None => None,
    };
    Some(OpenAIMessage { content, tool_calls })
}

/// Reads a choice.
pub fn decode_choice(v: &serde_json::Value) -> (r: Option<OpenAIChoice>)
    ensures
        r.deep_view() == choice_of(json_of(*v)),
{
    let m = as_object(v)?;
    let x = get_member(m, "message")?;
    let message = decode_openai_message(x)?;
    let finish_reason = get_optional_text(m, "finish_reason")?;
    Some(OpenAIChoice { message, finish_reason })
}

/// Reads an array of choices.
pub fn decode_choices(v: &serde_json::Value) -> (r: Option<Vec<OpenAIChoice>>)
    ensures
        r.deep_view() == array_with(json_of(*v), |c: JsonValue| choice_of(c)),
{
    let items = as_array(v)?;
    let ghost trees = jsons_of(items@);
    let ghost f = |c: JsonValue| choice_of(c);
    let mut out: Vec<OpenAIChoice> = Vec::new();
    let mut i: usize = 0;
    while i < items.len()
        invariant
            i <= items@.len(),
            trees == jsons_of(items@),
            json_of(*v) == JsonValue::Array(trees),
            f == |c: JsonValue| choice_of(c),
            out@.len() == i,
            forall|j: int| 0 <= j < i ==> (#[trigger] f(trees[j])) == Some(out@[j]@),
        decreases items@.len() - i,
    {
        assert(trees[i as int] == json_of(items@[i as int]));
        match decode_choice(&items[i]) {
            Some(c) => {
                out.push(c);
            },
            None => {
                assert(f(trees[i as int]) is None);
                return None;
            },
        }
        i = i + 1;
    }
    assert(out.deep_view() =~= Seq::new(trees.len(), |i: int| f(trees[i])->0));
    Some(out)
}

/// Reads the body of a response that does not stream.
pub fn decode_chat_response(v: &serde_json::Value) -> (r: Option<OpenAIChatResponse>)
    ensures
        r.deep_view() == chat_response_of(json_of(*v)),
{
    let m = as_object(v)?;
    let a = get_member(m, "choices")?;
    let choices = decode_choices(a)?;
    let usage = decode_optional_usage(m)?;
    Some(OpenAIChatResponse { choices, usage })
}

/// Reads the part of a function call that a frame carries.
pub fn decode_function_fragment(v: &serde_json::Value) -> (r: Option<ToolCallFunctionStreamDelta>)
    ensures
        r.deep_view() == function_fragment_of(json_of(*v)),
{
    let m = as_object(v)?;
    let name = get_optional_text(m, "name")?;
    let arguments = get_optional_text(m, "arguments")?;
    Some(ToolCallFunctionStreamDelta { name, arguments })
}

/// Reads the part of a tool call that a frame carries.
pub fn decode_fragment(v: &serde_json::Value) -> (r: Option<ToolCallStreamDelta>)
    ensures
        r.deep_view() == fragment_of(json_of(*v)),
{
    let m = as_object(v)?;
    let x = get_member(m, "index")?;
    let index = read_usize(x)?;
    let id = get_optional_text(m, "id")?;
    let function = match get_present(m, "function") {
        Some(f) => Some(decode_function_fragment(f)?),
        None => None,
    };
    Some(ToolCallStreamDelta { index, id, function })
}

/// Reads an array of parts of tool calls.
pub fn decode_fragments(v: &serde_json::Value) -> (r: Option<Vec<ToolCallStreamDelta>>)
    ensures
        r.deep_view() == array_with(json_of(*v), |c: JsonValue| fragment_of(c)),
{
    let items = as_array(v)?;
    let ghost trees = jsons_of(items@);
    let ghost f = |c: JsonValue| fragment_of(c);
    let mut out: Vec<ToolCallStreamDelta> = Vec::new();
    let mut i: usize = 0;
    while i < items.len()
        invariant
            i <= items@.len(),
            trees == jsons_of(items@),
            json_of(*v) == JsonValue::Array(trees),
            f == |c: JsonValue| fragment_of(c),
            out@.len() == i,
            forall|j: int| 0 <= j < i ==> (#[trigger] f(trees[j])) == Some(out@[j]@),
        decreases items@.len() - i,
    {
        assert(trees[i as int] == json_of(items@[i as int]));
        match decode_fragment(&items[i]) {
            Some(c) => {
                out.push(c);
            },
            None => {
                assert(f(trees[i as int]) is None);
                return None;
            },
        }
        i = i + 1;
    }
    assert(out.deep_view() =~= Seq::new(trees.len(), |i: int| f(trees[i])->0));
    Some(out)
}

/// Reads what a frame adds to a choice.
pub fn decode_stream_delta(v: &serde_json::Value) -> (r: Option<OpenAIStreamDelta>)
    ensures
        r.deep_view() == stream_delta_of(json_of(*v)),
{
    let m = as_object(v)?;
    let content = get_optional_text(m, "content")?;
    let tool_calls = match get_present(m, "tool_calls") {
        Some(a) => Some(decode_fragments(a)?),
        None => None,
    };
    Some(OpenAIStreamDelta { content, tool_calls })
}

/// Reads a choice of a frame.
pub fn decode_stream_choice(v: &serde_json::Value) -> (r: Option<OpenAIStreamChoice>)
    ensures
        r.deep_view() == stream_choice_of(json_of(*v)),
{
    let m = as_object(v)?;
    let x = get_member(m, "delta")?;
    let delta = decode_stream_delta(x)?;
    let finish_reason = get_optional_text(m, "finish_reason")?;
    Some(OpenAIStreamChoice { delta, finish_reason })
}

/// Reads the choices of a frame.
pub fn decode_stream_choices(v: &serde_json::Value) -> (r: Option<Vec<OpenAIStreamChoice>>)
    ensures
        r.deep_view() == array_with(json_of(*v), |c: JsonValue| stream_choice_of(c)),
{
    let items = as_array(v)?;
    let ghost trees = jsons_of(items@);
    let ghost f = |c: JsonValue| stream_choice_of(c);
    let mut out: Vec<OpenAIStreamChoice> = Vec::new();
    let mut i: usize = 0;
    while i < items.len()
        invariant
            i <= items@.len(),
            trees == jsons_of(items@),
            json_of(*v) == JsonValue::Array(trees),
            f == |c: JsonValue| stream_choice_of(c),
            out@.len() == i,
            forall|j: int| 0 <= j < i ==> (#[trigger] f(trees[j])) == Some(out@[j]@),
        decreases items@.len() - i,
    {
        assert(trees[i as int] == json_of(items@[i as int]));
        match decode_stream_choice(&items[i]) {
            Some(c) => {
                out.push(c);
            },
            None => {
                assert(f(trees[i as int]) is None);
                return None;
            },
        }
        i = i + 1;
    }
    assert(out.deep_view() =~= Seq::new(trees.len(), |i: int| f(trees[i])->0));
    Some(out)
}

/// Reads a frame.
pub fn decode_stream_response(v: &serde_json::Value) -> (r: Option<OpenAIChatStreamResponse>)
    ensures
        r.deep_view() == stream_response_of(json_of(*v)),
{
    let m = as_object(v)?;
    let a = get_member(m, "choices")?;
    let choices = decode_stream_choices(a)?;
    let usage = decode_optional_usage(m)?;
    Some(OpenAIChatStreamResponse { choices, usage })
}

} // verus!
