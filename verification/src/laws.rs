//! Laws that hold of the wire formats and of the adapters' answers.

use vstd::prelude::*;
use crate::http::is_success;
use crate::json::JsonValue;
use crate::providers::ollama::{
    ollama_completion, ollama_error_message, ollama_messages, ollama_request_json,
    ollama_status_error, uses_json_mode,
};
use crate::providers::openai::{
    api_failure, chat_request_json, completion_kind_of, completion_of_json, openai_completion,
    openai_error_message, openai_status_error,
};
use crate::providers::openai_wire::{chat_response_of, OpenAIChatResponseView, OpenAIMessageView};
use crate::traits::{
    ChatMessageRole, ChatMessageView, CompletionRequestView, ToolCallRequestView,
};
use crate::wire::{
    array_with, function_json, function_of, member, members, message_json, message_of,
    messages_json, optional_text, present, required_text, required_with, role_of, role_text,
    tool_call_json, tool_call_of, tool_calls_json, tool_calls_of,
};

verus! {

/// Reading the name of a role gives the role back.
pub proof fn lemma_role_round_trip(role: ChatMessageRole)
    ensures
        role_of(role_text(role)) == Some(role),
{
    reveal_strlit("system");
    reveal_strlit("user");
    reveal_strlit("assistant");
    reveal_strlit("tool");
    assert("system"@.len() == 6);
    assert("user"@.len() == 4);
    assert("assistant"@.len() == 9);
    assert("tool"@.len() == 4);
    assert("user"@[0] != "tool"@[0]);
    assert("system"@[1] != "assistant"@[1] || "system"@.len() != "assistant"@.len());
}

/// Reading a written tool call gives the call back.
pub proof fn lemma_tool_call_round_trip(c: ToolCallRequestView)
    ensures
        tool_call_of(tool_call_json(c)) == Some(c),
{
    reveal_strlit("id");
    reveal_strlit("type");
    reveal_strlit("function");
    reveal_strlit("name");
    reveal_strlit("arguments");
    assert("id"@.len() == 2);
    assert("type"@.len() == 4);
    assert("function"@.len() == 8);
    assert("name"@.len() == 4);
    assert("arguments"@.len() == 9);
    assert("type"@[0] != "name"@[0]);
    assert(function_of(function_json(c.function)) == Some(c.function));
}

/// Reading a written list of tool calls gives the calls back, in order.
pub proof fn lemma_tool_calls_round_trip(calls: Seq<ToolCallRequestView>)
    ensures
        tool_calls_of(tool_calls_json(calls)) == Some(calls),
{
    let items = Seq::new(calls.len(), |i: int| tool_call_json(calls[i]));
    assert forall|i: int| 0 <= i < items.len() implies tool_call_of(#[trigger] items[i]) == Some(
        calls[i],
    ) by {
        lemma_tool_call_round_trip(calls[i]);
    }
    assert(Seq::new(items.len(), |i: int| tool_call_of(items[i])->0) =~= calls);
}

/// Reading a written message gives the message back: the wire format loses
/// nothing of a message.
pub proof fn lemma_message_round_trip(m: ChatMessageView)
    ensures
        message_of(message_json(m)) == Some(m),
{
    reveal_strlit("role");
    reveal_strlit("content");
    reveal_strlit("tool_calls");
    reveal_strlit("tool_call_id");
    assert("role"@.len() == 4);
    assert("content"@.len() == 7);
    assert("tool_calls"@.len() == 10);
    assert("tool_call_id"@.len() == 12);
    lemma_role_round_trip(m.role);
    let written = members(message_json(m))->0;
    assert(required_text(written, "role"@) == Some(role_text(m.role)));
    assert(optional_text(written, "content"@) == Some(m.content));
    assert(optional_text(written, "tool_call_id"@) == Some(m.tool_call_id));
    match m.tool_calls {
        Some(calls) => {
            lemma_tool_calls_round_trip(calls);
            assert(present(written, "tool_calls"@) == Some(tool_calls_json(calls)));
        },
        None => {
            assert(present(written, "tool_calls"@) is None);
        },
    }
}

/// Reading a written conversation gives its messages back, in their order.
pub proof fn lemma_messages_round_trip(messages: Seq<ChatMessageView>)
    ensures
        array_with(messages_json(messages), |j: JsonValue| message_of(j)) == Some(messages),
{
    let items = Seq::new(messages.len(), |i: int| message_json(messages[i]));
    let f = |j: JsonValue| message_of(j);
    assert forall|i: int| 0 <= i < items.len() implies (#[trigger] f(items[i])) == Some(
        messages[i],
    ) by {
        lemma_message_round_trip(messages[i]);
    }
    assert(Seq::new(items.len(), |i: int| f(items[i])->0) =~= messages);
}

/// The body of an OpenAI request carries the request's model and its
/// conversation: reading the members `model` and `messages` of what is written
/// gives back the model and the messages, in their order.
pub proof fn lemma_openai_request_carries_conversation(req: CompletionRequestView, stream: bool)
    ensures
        members(chat_request_json(req, stream)) matches Some(m) && required_text(m, "model"@)
            == Some(req.model) && required_with(
            member(m, "messages"@),
            |a: JsonValue| array_with(a, |j: JsonValue| message_of(j)),
        ) == Some(req.messages),
{
    reveal_strlit("model");
    reveal_strlit("messages");
    reveal_strlit("stream");
    reveal_strlit("temperature");
    reveal_strlit("max_tokens");
    reveal_strlit("tools");
    reveal_strlit("tool_choice");
    assert("model"@.len() == 5);
    assert("messages"@.len() == 8);
    assert("stream"@.len() == 6);
    assert("temperature"@.len() == 11);
    assert("max_tokens"@.len() == 10);
    assert("tools"@.len() == 5);
    assert("tool_choice"@.len() == 11);
    assert("model"@[0] != "tools"@[0]);
    lemma_messages_round_trip(req.messages);
    let m = members(chat_request_json(req, stream))->0;
    assert(m.contains_key("model"@) && m["model"@] == JsonValue::String(req.model));
    assert(m.contains_key("messages"@) && m["messages"@] == messages_json(req.messages));
}

/// The body of an Ollama request carries the request's model and the messages
/// it is given, in their order.
pub proof fn lemma_ollama_request_carries_conversation(
    req: CompletionRequestView,
    messages: Seq<ChatMessageView>,
    stream: bool,
    json_mode: bool,
)
    ensures
        members(ollama_request_json(req, messages, stream, json_mode)) matches Some(m)
            && required_text(m, "model"@) == Some(req.model) && required_with(
            member(m, "messages"@),
            |a: JsonValue| array_with(a, |j: JsonValue| message_of(j)),
        ) == Some(messages),
{
    reveal_strlit("model");
    reveal_strlit("messages");
    reveal_strlit("stream");
    reveal_strlit("format");
    reveal_strlit("options");
    assert("model"@.len() == 5);
    assert("messages"@.len() == 8);
    assert("stream"@.len() == 6);
    assert("format"@.len() == 6);
    assert("options"@.len() == 7);
    lemma_messages_round_trip(messages);
    let m = members(ollama_request_json(req, messages, stream, json_mode))->0;
    assert(m.contains_key("model"@) && m["model"@] == JsonValue::String(req.model));
    assert(m.contains_key("messages"@) && m["messages"@] == messages_json(messages));
}

/// Without tools, the messages that the Ollama adapter sends are those of the
/// request, one for one and in their order, each with its role, its text and
/// the call it answers.
pub proof fn lemma_ollama_keeps_order(req: CompletionRequestView)
    requires
        !uses_json_mode(req),
    ensures
        ollama_messages(req).len() == req.messages.len(),
        forall|i: int|
            0 <= i < req.messages.len() ==> (#[trigger] ollama_messages(req)[i]).role
                == req.messages[i].role && ollama_messages(req)[i].content
                == req.messages[i].content && ollama_messages(req)[i].tool_call_id
                == req.messages[i].tool_call_id,
{
}

/// A message that carries tool calls is a tool-call completion, whatever its
/// text and whatever the reason the model gave for stopping.
pub proof fn lemma_tool_calls_take_precedence(
    message: OpenAIMessageView,
    finish_reason: Option<Seq<char>>,
)
    requires
        message.tool_calls is Some,
    ensures
        completion_kind_of(message, finish_reason) is ToolCall,
{
}

/// A response whose first choice carries tool calls is read as a tool-call
/// completion, never as a message.
pub proof fn lemma_response_with_tool_calls(j: JsonValue, resp: OpenAIChatResponseView)
    requires
        chat_response_of(j) == Some(resp),
        resp.choices.len() > 0,
        resp.choices[0].message.tool_calls is Some,
    ensures
        completion_of_json(j) matches Ok(c) && c.kind is ToolCall,
{
}

/// A status that is not a success is an API error with that status, on both
/// adapters and whatever the body: the completion is the error, and the error
/// stands before a stream could be opened.
pub proof fn lemma_failed_status_is_api_error(status: u16, body: Seq<char>, json_mode: bool)
    requires
        !is_success(status),
    ensures
        openai_completion(status, body) == api_failure(status, openai_error_message(body)),
        ollama_completion(status, body, json_mode) == api_failure(
            status,
            ollama_error_message(body),
        ),
        openai_status_error(status, body) is Some,
        ollama_status_error(status, body) is Some,
{
}

} // verus!
