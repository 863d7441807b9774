//! The JSON shapes that both backends share: how a message, a tool call and a
//! tool's schema are written, and how members of an object are read.
//!
//! Reading follows one rule throughout. A member that a shape requires must be
//! present and of the right kind; a member that a shape allows may be missing
//! or `null`, and must be of the right kind otherwise; members that a shape
//! does not name are ignored.

use vstd::prelude::*;
use crate::json::{
    array_value, as_array, as_bool, as_object, as_str, as_u64, clone_map, is_null, json_of,
    json_u64, jsons_of, map_get, map_insert, map_new, members_of, null_value, object_value,
    string_value, JsonValue,
};
use crate::text::str_eq;
use crate::traits::{
    ChatMessage, ChatMessageRole, ChatMessageView, JsonSchema, JsonSchemaView, ToolCallFunction,
    ToolCallFunctionView, ToolCallRequest, ToolCallRequestView,
};

verus! {

/// The member `key` of an object, if it has one.
pub open spec fn member(m: Map<Seq<char>, JsonValue>, key: Seq<char>) -> Option<JsonValue> {
    if m.contains_key(key) {
        Some(m[key])
    } else {
        None
    }
}

/// The member `key` of an object, if it has one that is not `null`.
pub open spec fn present(m: Map<Seq<char>, JsonValue>, key: Seq<char>) -> Option<JsonValue> {
    if m.contains_key(key) && !(m[key] is Null) {
        Some(m[key])
    } else {
        None
    }
}

/// The characters of a JSON string.
pub open spec fn text_of(j: JsonValue) -> Option<Seq<char>> {
    match j {
        JsonValue::String(s) => Some(s),
        _ => None,
    }
}

/// The value of a JSON boolean.
pub open spec fn bool_of(j: JsonValue) -> Option<bool> {
    match j {
        JsonValue::Bool(b) => Some(b),
        _ => None,
    }
}

/// The value of a JSON number that is an unsigned integer of 32 bits.
pub open spec fn u32_of(j: JsonValue) -> Option<u32> {
    match json_u64(j) {
        Some(x) => if j is Number && x <= u32::MAX {
            Some(x as u32)
        } else {
            None
        },
        None => None,
    }
}

/// The value of a JSON number that is an unsigned integer of 64 bits.
pub open spec fn u64_of(j: JsonValue) -> Option<u64> {
    if j is Number {
        json_u64(j)
    } else {
        None
    }
}

/// The value of a JSON number that is an unsigned integer of the machine's
/// word size.
pub open spec fn usize_of(j: JsonValue) -> Option<usize> {
    match json_u64(j) {
        Some(x) => if j is Number && x <= usize::MAX {
            Some(x as usize)
        } else {
            None
        },
        None => None,
    }
}

/// The members of a JSON object.
pub open spec fn members(j: JsonValue) -> Option<Map<Seq<char>, JsonValue>> {
    match j {
        JsonValue::Object(m) => Some(m),
        _ => None,
    }
}

/// The elements of a JSON array.
pub open spec fn elements(j: JsonValue) -> Option<Seq<JsonValue>> {
    match j {
        JsonValue::Array(items) => Some(items),
        _ => None,
    }
}

/// A required member that is a string.
pub open spec fn required_text(m: Map<Seq<char>, JsonValue>, key: Seq<char>) -> Option<
    Seq<char>,
> {
    match member(m, key) {
        Some(j) => text_of(j),
        None => None,
    }
}

/// An allowed member that is a string: `Some(None)` where it is missing or
/// `null`, `None` where it is of another kind.
pub open spec fn optional_text(m: Map<Seq<char>, JsonValue>, key: Seq<char>) -> Option<
    Option<Seq<char>>,
> {
    match present(m, key) {
        Some(j) => match text_of(j) {
            Some(s) => Some(Some(s)),
            None => None,
        },
        None => Some(None),
    }
}

/// A required member that is a boolean.
pub open spec fn required_bool(m: Map<Seq<char>, JsonValue>, key: Seq<char>) -> Option<bool> {
    match member(m, key) {
        Some(j) => bool_of(j),
        None => None,
    }
}

/// A required member that is an unsigned integer of 32 bits.
pub open spec fn required_u32(m: Map<Seq<char>, JsonValue>, key: Seq<char>) -> Option<u32> {
    match member(m, key) {
        Some(j) => u32_of(j),
        None => None,
    }
}

/// An allowed member that is an unsigned integer of 32 bits.
pub open spec fn optional_u32(m: Map<Seq<char>, JsonValue>, key: Seq<char>) -> Option<
    Option<u32>,
> {
    match present(m, key) {
        Some(j) => match u32_of(j) {
            Some(x) => Some(Some(x)),
            None => None,
        },
        None => Some(None),
    }
}

/// An allowed member that is an unsigned integer of 64 bits.
pub open spec fn optional_u64(m: Map<Seq<char>, JsonValue>, key: Seq<char>) -> Option<
    Option<u64>,
> {
    match present(m, key) {
        Some(j) => match u64_of(j) {
            Some(x) => Some(Some(x)),
            None => None,
        },
        None => Some(None),
    }
}

/// Looks up a member of an object.
pub(crate) fn get_member<'a>(m: &'a serde_json::Map<String, serde_json::Value>, key: &str) -> (r: Option<
    &'a serde_json::Value,
>)
    ensures
        match r {
            Some(v) => member(members_of(*m), key@) == Some(json_of(*v)),
            None => member(members_of(*m), key@) is None,
        },
{
    map_get(m, key)
}

/// Looks up a member of an object, taking `null` for absent.
pub fn get_present<'a>(m: &'a serde_json::Map<String, serde_json::Value>, key: &str) -> (r:
    Option<&'a serde_json::Value>)
    ensures
        match r {
            Some(v) => present(members_of(*m), key@) == Some(json_of(*v)),
            None => present(members_of(*m), key@) is None,
        },
{
    match map_get(m, key) {
        Some(v) => if is_null(v) {
            None
        } else {
            Some(v)
        },
        None => None,
    }
}

/// Reads a JSON string.
pub fn read_text(v: &serde_json::Value) -> (r: Option<String>)
    ensures
        r.deep_view() == text_of(json_of(*v)),
{
    match as_str(v) {
        Some(s) => Some(s.to_owned()),
        None => None,
    }
}

/// An unsigned integer as one of 32 bits, where it is small enough.
pub fn narrow_u32(x: u64) -> (r: Option<u32>)
    ensures
        x <= u32::MAX ==> r == Some(x as u32),
        x > u32::MAX ==> r is None,
{
    if x <= 0xffff_ffff {
        Some(x as u32)
    } else {
        None
    }
}

/// An unsigned integer as one of the machine's word size, where it is small
/// enough.
pub fn narrow_usize(x: u64) -> (r: Option<usize>)
    ensures
        x <= usize::MAX ==> r == Some(x as usize),
        x > usize::MAX ==> r is None,
{
    if x <= usize::MAX as u64 {
        Some(x as usize)
    } else {
        None
    }
}

/// Reads a JSON number as an unsigned integer of 32 bits.
pub fn read_u32(v: &serde_json::Value) -> (r: Option<u32>)
    ensures
        r == u32_of(json_of(*v)),
{
    match as_u64(v) {
        Some(x) => narrow_u32(x),
        None => None,
    }
}

/// Reads a JSON number as an unsigned integer of 64 bits.
pub(crate) fn read_u64(v: &serde_json::Value) -> (r: Option<u64>)
    ensures
        r == u64_of(json_of(*v)),
{
    as_u64(v)
}

/// Reads a JSON number as an unsigned integer of the machine's word size.
pub fn read_usize(v: &serde_json::Value) -> (r: Option<usize>)
    ensures
        r == usize_of(json_of(*v)),
{
    match as_u64(v) {
        Some(x) => narrow_usize(x),
        None => None,
    }
}

/// Reads a required member that is a string.
pub fn get_required_text(m: &serde_json::Map<String, serde_json::Value>, key: &str) -> (r: Option<
    String,
>)
    ensures
        r.deep_view() == required_text(members_of(*m), key@),
{
    match get_member(m, key) {
        Some(v) => read_text(v),
        None => None,
    }
}

/// Reads an allowed member that is a string.
pub fn get_optional_text(m: &serde_json::Map<String, serde_json::Value>, key: &str) -> (r: Option<
    Option<String>,
>)
    ensures
        r.deep_view() == optional_text(members_of(*m), key@),
{
    match get_present(m, key) {
        Some(v) => match read_text(v) {
            Some(s) => Some(Some(s)),
            None => None,
        },
        None => Some(None),
    }
}

/// Reads a required member that is a boolean.
pub fn get_required_bool(m: &serde_json::Map<String, serde_json::Value>, key: &str) -> (r: Option<
    bool,
>)
    ensures
        r == required_bool(members_of(*m), key@),
{
    match get_member(m, key) {
        Some(v) => as_bool(v),
        None => None,
    }
}

/// Reads a required member that is an unsigned integer of 32 bits.
pub fn get_required_u32(m: &serde_json::Map<String, serde_json::Value>, key: &str) -> (r: Option<
    u32,
>)
    ensures
        r == required_u32(members_of(*m), key@),
{
    match get_member(m, key) {
        Some(v) => read_u32(v),
        None => None,
    }
}

/// Reads an allowed member that is an unsigned integer of 32 bits.
pub fn get_optional_u32(m: &serde_json::Map<String, serde_json::Value>, key: &str) -> (r: Option<
    Option<u32>,
>)
    ensures
        r == optional_u32(members_of(*m), key@),
{
    match get_present(m, key) {
        Some(v) => match read_u32(v) {
            Some(x) => Some(Some(x)),
            None => None,
        },
        None => Some(None),
    }
}

/// Reads an allowed member that is an unsigned integer of 64 bits.
pub fn get_optional_u64(m: &serde_json::Map<String, serde_json::Value>, key: &str) -> (r: Option<
    Option<u64>,
>)
    ensures
        r == optional_u64(members_of(*m), key@),
{
    match get_present(m, key) {
        Some(v) => match read_u64(v) {
            Some(x) => Some(Some(x)),
            None => None,
        },
        None => Some(None),
    }
}

/// A JSON string, or `null` for no string.
pub open spec fn text_or_null(s: Option<Seq<char>>) -> JsonValue {
    match s {
        Some(t) => JsonValue::String(t),
        None => JsonValue::Null,
    }
}

/// The array of the given strings.
pub open spec fn texts_json(items: Seq<Seq<char>>) -> JsonValue {
    JsonValue::Array(Seq::new(items.len(), |i: int| JsonValue::String(items[i])))
}

/// Writes a list of strings as a JSON array.
pub fn encode_texts(items: &Vec<String>) -> (r: serde_json::Value)
    ensures
        json_of(r) == texts_json(items.deep_view()),
{
    let mut out: Vec<serde_json::Value> = Vec::new();
    let mut i: usize = 0;
    while i < items.len()
        invariant
            i <= items@.len(),
            out@.len() == i,
            forall|j: int| 0 <= j < i ==> json_of(#[trigger] out@[j]) == JsonValue::String(
                items@[j]@,
            ),
        decreases items@.len() - i,
    {
        out.push(string_value(items[i].clone()));
        i = i + 1;
    }
    assert(jsons_of(out@) =~= Seq::new(
        items.deep_view().len(),
        |i: int| JsonValue::String(items.deep_view()[i]),
    ));
    array_value(out)
}

/// The wire name of a role.
pub open spec fn role_text(role: ChatMessageRole) -> Seq<char> {
    match role {
        ChatMessageRole::System => "system"@,
        ChatMessageRole::User => "user"@,
        ChatMessageRole::Assistant => "assistant"@,
        ChatMessageRole::Tool => "tool"@,
    }
}

/// The role that a wire name stands for.
pub open spec fn role_of(name: Seq<char>) -> Option<ChatMessageRole> {
    if name == "system"@ {
        Some(ChatMessageRole::System)
    } else if name == "user"@ {
        Some(ChatMessageRole::User)
    } else if name == "assistant"@ {
        Some(ChatMessageRole::Assistant)
    } else if name == "tool"@ {
        Some(ChatMessageRole::Tool)
    } else {
        None
    }
}

/// The wire name of a role.
pub fn role_name(role: ChatMessageRole) -> (r: &'static str)
    ensures
        r@ == role_text(role),
{
    match role {
        ChatMessageRole::System => "system",
        ChatMessageRole::User => "user",
        ChatMessageRole::Assistant => "assistant",
        ChatMessageRole::Tool => "tool",
    }
}

/// Reads a role from its wire name.
pub fn parse_role(name: &str) -> (r: Option<ChatMessageRole>)
    ensures
        r == role_of(name@),
{
    if str_eq(name, "system") {
        Some(ChatMessageRole::System)
    } else if str_eq(name, "user") {
        Some(ChatMessageRole::User)
    } else if str_eq(name, "assistant") {
        Some(ChatMessageRole::Assistant)
    } else if str_eq(name, "tool") {
        Some(ChatMessageRole::Tool)
    } else {
        None
    }
}

/// How the function of a tool call is written: `{name, arguments}`.
pub open spec fn function_json(f: ToolCallFunctionView) -> JsonValue {
    JsonValue::Object(
        Map::empty().insert("name"@, JsonValue::String(f.name)).insert(
            "arguments"@,
            JsonValue::String(f.arguments),
        ),
    )
}

/// How a tool call is written: `{id, type, function}`.
pub open spec fn tool_call_json(c: ToolCallRequestView) -> JsonValue {
    JsonValue::Object(
        Map::empty().insert("id"@, JsonValue::String(c.id)).insert(
            "type"@,
            JsonValue::String(c.tool_type),
        ).insert("function"@, function_json(c.function)),
    )
}

/// How a list of tool calls is written: the array of the calls, in order.
pub open spec fn tool_calls_json(calls: Seq<ToolCallRequestView>) -> JsonValue {
    JsonValue::Array(Seq::new(calls.len(), |i: int| tool_call_json(calls[i])))
}

/// How a message is written: `{role, content}`, where `content` is `null` for
/// a message without text, with `tool_calls` and `tool_call_id` where the
/// message has them.
pub open spec fn message_json(m: ChatMessageView) -> JsonValue {
    let base = Map::empty().insert("role"@, JsonValue::String(role_text(m.role))).insert(
        "content"@,
        text_or_null(m.content),
    );
    let with_calls = match m.tool_calls {
        Some(calls) => base.insert("tool_calls"@, tool_calls_json(calls)),
        None => base,
    };
    let with_id = match m.tool_call_id {
        Some(id) => with_calls.insert("tool_call_id"@, JsonValue::String(id)),
        None => with_calls,
    };
    JsonValue::Object(with_id)
}

/// How a conversation is written: the array of its messages, in order.
pub open spec fn messages_json(messages: Seq<ChatMessageView>) -> JsonValue {
    JsonValue::Array(Seq::new(messages.len(), |i: int| message_json(messages[i])))
}

/// How a schema is written: `{type, properties, required}`, with `null` for a
/// part that the schema lacks.
pub open spec fn schema_json(s: JsonSchemaView) -> JsonValue {
    JsonValue::Object(
        Map::empty().insert("type"@, JsonValue::String(s.schema_type)).insert(
            "properties"@,
            match s.properties {
                Some(p) => JsonValue::Object(p),
                None => JsonValue::Null,
            },
        ).insert(
            "required"@,
            match s.required {
                Some(names) => texts_json(names),
                None => JsonValue::Null,
            },
        ),
    )
}

/// Writes the function of a tool call.
pub fn encode_function(f: &ToolCallFunction) -> (r: serde_json::Value)
    ensures
        json_of(r) == function_json(f@),
{
    let mut m = map_new();
    map_insert(&mut m, "name".to_owned(), string_value(f.name.clone()));
    map_insert(&mut m, "arguments".to_owned(), string_value(f.arguments.clone()));
    object_value(m)
}

/// Writes a tool call.
pub fn encode_tool_call(c: &ToolCallRequest) -> (r: serde_json::Value)
    ensures
        json_of(r) == tool_call_json(c@),
{
    let mut m = map_new();
    map_insert(&mut m, "id".to_owned(), string_value(c.id.clone()));
    map_insert(&mut m, "type".to_owned(), string_value(c.tool_type.clone()));
    map_insert(&mut m, "function".to_owned(), encode_function(&c.function));
    object_value(m)
}

/// Writes a list of tool calls.
pub fn encode_tool_calls(calls: &Vec<ToolCallRequest>) -> (r: serde_json::Value)
    ensures
        json_of(r) == tool_calls_json(calls.deep_view()),
{
    let mut out: Vec<serde_json::Value> = Vec::new();
    let mut i: usize = 0;
    while i < calls.len()
        invariant
            i <= calls@.len(),
            out@.len() == i,
            forall|j: int| 0 <= j < i ==> json_of(#[trigger] out@[j]) == tool_call_json(calls@[j]@),
        decreases calls@.len() - i,
    {
        out.push(encode_tool_call(&calls[i]));
        i = i + 1;
    }
    assert(jsons_of(out@) =~= Seq::new(
        calls.deep_view().len(),
        |i: int| tool_call_json(calls.deep_view()[i]),
    ));
    array_value(out)
}

/// Writes a message.
pub fn encode_message(m: &ChatMessage) -> (r: serde_json::Value)
    ensures
        json_of(r) == message_json(m@),
{
    let mut out = map_new();
    map_insert(&mut out, "role".to_owned(), string_value(role_name(m.role).to_owned()));
    let content = match &m.content {
        Some(s) => string_value(s.clone()),
        None => null_value(),
    };
    map_insert(&mut out, "content".to_owned(), content);
    match &m.tool_calls {
        Some(calls) => {
            map_insert(&mut out, "tool_calls".to_owned(), encode_tool_calls(calls));
        },
        None => {},
    }
    match &m.tool_call_id {
        Some(id) => {
            map_insert(&mut out, "tool_call_id".to_owned(), string_value(id.clone()));
        },
        None => {},
    }
    object_value(out)
}

/// Writes a conversation.
pub fn encode_messages(messages: &Vec<ChatMessage>) -> (r: serde_json::Value)
    ensures
        json_of(r) == messages_json(messages.deep_view()),
{
    let mut out: Vec<serde_json::Value> = Vec::new();
    let mut i: usize = 0;
    while i < messages.len()
        invariant
            i <= messages@.len(),
            out@.len() == i,
            forall|j: int| 0 <= j < i ==> json_of(#[trigger] out@[j]) == message_json(
                messages@[j]@,
            ),
        decreases messages@.len() - i,
    {
        out.push(encode_message(&messages[i]));
        i = i + 1;
    }
    assert(jsons_of(out@) =~= Seq::new(
        messages.deep_view().len(),
        |i: int| message_json(messages.deep_view()[i]),
    ));
    array_value(out)
}

/// Writes a schema.
pub fn encode_schema(s: &JsonSchema) -> (r: serde_json::Value)
    ensures
        json_of(r) == schema_json(s@),
{
    let mut m = map_new();
    map_insert(&mut m, "type".to_owned(), string_value(s.schema_type.clone()));
    let properties = match &s.properties {
        Some(p) => object_value(clone_map(p)),
        None => null_value(),
    };
    map_insert(&mut m, "properties".to_owned(), properties);
    let required = match &s.required {
        Some(names) => encode_texts(names),
        None => null_value(),
    };
    map_insert(&mut m, "required".to_owned(), required);
    object_value(m)
}

/// The function that a JSON value describes: an object with the strings `name`
/// and `arguments`.
pub open spec fn function_of(j: JsonValue) -> Option<ToolCallFunctionView> {
    match members(j) {
        Some(m) => match (required_text(m, "name"@), required_text(m, "arguments"@)) {
            (Some(name), Some(arguments)) => Some(ToolCallFunctionView { name, arguments }),
            _ => None,
        },
        None => None,
    }
}

/// The tool call that a JSON value describes: an object with the strings `id`
/// and `type` and the function `function`.
pub open spec fn tool_call_of(j: JsonValue) -> Option<ToolCallRequestView> {
    match members(j) {
        Some(m) => match (required_text(m, "id"@), required_text(m, "type"@), member(
            m,
            "function"@,
        )) {
            (Some(id), Some(tool_type), Some(f)) => match function_of(f) {
                Some(function) => Some(ToolCallRequestView { id, tool_type, function }),
                None => None,
            },
            _ => None,
        },
        None => None,
    }
}

/// The tool calls that a JSON value describes: an array of tool calls.
pub open spec fn tool_calls_of(j: JsonValue) -> Option<Seq<ToolCallRequestView>> {
    match elements(j) {
        Some(items) => if forall|i: int| 0 <= i < items.len() ==> tool_call_of(#[trigger] items[i]) is Some {
            Some(Seq::new(items.len(), |i: int| tool_call_of(items[i])->0))
        } else {
            None
        },
        None => None,
    }
}

/// The message that a JSON value describes: an object with the string `role`,
/// and, where it has them, the string `content`, the tool calls `tool_calls`
/// and the string `tool_call_id`.
pub open spec fn message_of(j: JsonValue) -> Option<ChatMessageView> {
    match members(j) {
        Some(m) => match (required_text(m, "role"@), optional_text(m, "content"@), optional_text(
            m,
            "tool_call_id"@,
        )) {
            (Some(name), Some(content), Some(tool_call_id)) => match role_of(name) {
                Some(role) => match present(m, "tool_calls"@) {
                    Some(calls) => match tool_calls_of(calls) {
                        Some(tool_calls) => Some(
                            ChatMessageView {
                                role,
                                content,
                                tool_calls: Some(tool_calls),
                                tool_call_id,
                            },
                        ),
                        None => None,
                    },
                    None => Some(ChatMessageView { role, content, tool_calls: None, tool_call_id }),
                },
                None => None,
            },
            _ => None,
        },
        None => None,
    }
}

/// Reads the function of a tool call.
pub fn decode_function(v: &serde_json::Value) -> (r: Option<ToolCallFunction>)
    ensures
        r.deep_view() == function_of(json_of(*v)),
{
    let m = as_object(v)?;
    let name = get_required_text(m, "name")?;
    let arguments = get_required_text(m, "arguments")?;
    Some(ToolCallFunction { name, arguments })
}

/// Reads a tool call.
pub fn decode_tool_call(v: &serde_json::Value) -> (r: Option<ToolCallRequest>)
    ensures
        r.deep_view() == tool_call_of(json_of(*v)),
{
    let m = as_object(v)?;
    let id = get_required_text(m, "id")?;
    let tool_type = get_required_text(m, "type")?;
    let f = get_member(m, "function")?;
    let function = decode_function(f)?;
    Some(ToolCallRequest { id, tool_type, function })
}

/// Reads a list of tool calls.
pub fn decode_tool_calls(v: &serde_json::Value) -> (r: Option<Vec<ToolCallRequest>>)
    ensures
        r.deep_view() == tool_calls_of(json_of(*v)),
{
    let items = as_array(v)?;
    let ghost trees = jsons_of(items@);
    let mut out: Vec<ToolCallRequest> = Vec::new();
    let mut i: usize = 0;
    while i < items.len()
        invariant
            i <= items@.len(),
            trees == jsons_of(items@),
            json_of(*v) == JsonValue::Array(trees),
            out@.len() == i,
            forall|j: int| 0 <= j < i ==> tool_call_of(#[trigger] trees[j]) == Some(out@[j]@),
        decreases items@.len() - i,
    {
        assert(trees[i as int] == json_of(items@[i as int]));
        match decode_tool_call(&items[i]) {
            Some(c) => {
                out.push(c);
            },
            None => {
                assert(tool_call_of(trees[i as int]) is None);
                return None;
            },
        }
        i = i + 1;
    }
    assert(out.deep_view() =~= Seq::new(trees.len(), |i: int| tool_call_of(trees[i])->0));
    Some(out)
}

/// Reads a message.
pub fn decode_message(v: &serde_json::Value) -> (r: Option<ChatMessage>)
    ensures
        r.deep_view() == message_of(json_of(*v)),
{
    let m = as_object(v)?;
    let name = get_required_text(m, "role")?;
    let content = get_optional_text(m, "content")?;
    let tool_call_id = get_optional_text(m, "tool_call_id")?;
    let role = parse_role(name.as_str())?;
    let tool_calls = match get_present(m, "tool_calls") {
        Some(calls) => Some(decode_tool_calls(calls)?),
        None => None,
    };
    Some(ChatMessage { role, content, tool_calls, tool_call_id })
}


/// An allowed part of a shape: absent where the member is, read by `f` where
/// it is present, and `None` where `f` cannot read it.
pub open spec fn optional_with<T>(j: Option<JsonValue>, f: spec_fn(JsonValue) -> Option<T>) -> Option<
    Option<T>,
> {
    match j {
        Some(x) => match f(x) {
            Some(t) => Some(Some(t)),
            None => None,
        },
        None => Some(None),
    }
}

/// A required part of a shape, read by `f`.
pub open spec fn required_with<T>(j: Option<JsonValue>, f: spec_fn(JsonValue) -> Option<T>) -> Option<
    T,
> {
    match j {
        Some(x) => f(x),
        None => None,
    }
}

/// The elements of an array, each read by `f`; `None` where `f` cannot read
/// one of them.
pub open spec fn all_with<T>(items: Seq<JsonValue>, f: spec_fn(JsonValue) -> Option<T>) -> Option<
    Seq<T>,
> {
    if forall|i: int| 0 <= i < items.len() ==> (#[trigger] f(items[i])) is Some {
        Some(Seq::new(items.len(), |i: int| f(items[i])->0))
    } else {
        None
    }
}

/// An array, each element read by `f`.
pub open spec fn array_with<T>(j: JsonValue, f: spec_fn(JsonValue) -> Option<T>) -> Option<Seq<T>> {
    match j {
        JsonValue::Array(items) => all_with(items, f),
        _ => None,
    }
}

} // verus!
