use merco_llmproxy::adapter::{get_provider, LlmAdapter, LlmProvider, LlmStream};
use merco_llmproxy::config::{LlmConfig, Provider};
use merco_llmproxy::traits::{
    ChatMessage, ChatMessageRole, CompletionKind, CompletionRequest, CompletionResponse,
    JsonSchema, ProviderError, TokenUsage, Tool, ToolCallFunction, ToolCallRequest,
};
use merco_llmproxy::wire::{
    decode_message, decode_tool_call, encode_message, encode_schema, encode_tool_call, parse_role,
    role_name,
};

fn parse(text: &str) -> serde_json::Value {
    serde_json::from_str(text).unwrap()
}

fn call(id: &str, name: &str, arguments: &str) -> ToolCallRequest {
    ToolCallRequest::new_function_call(
        id.to_string(),
        ToolCallFunction { name: name.to_string(), arguments: arguments.to_string() },
    )
}

#[test]
fn constructors_set_the_role() {
    let user = ChatMessage::user("u".to_string());
    assert_eq!(user.role, ChatMessageRole::User);
    assert_eq!(user.content, Some("u".to_string()));
    assert!(user.tool_calls.is_none());
    assert_eq!(user.tool_call_id, None);
    let system = ChatMessage::system("s".to_string());
    assert_eq!(system.role, ChatMessageRole::System);
    assert_eq!(system.content, Some("s".to_string()));
    let assistant = ChatMessage::assistant(None, Some(vec![call("c", "f", "{}")]));
    assert_eq!(assistant.role, ChatMessageRole::Assistant);
    assert_eq!(assistant.content, None);
    assert_eq!(assistant.tool_calls.as_ref().unwrap().len(), 1);
    assert_eq!(assistant.tool_call_id, None);
    let result = ChatMessage::tool_result("c".to_string(), "42".to_string());
    assert_eq!(result.role, ChatMessageRole::Tool);
    assert_eq!(result.content, Some("42".to_string()));
    assert_eq!(result.tool_call_id, Some("c".to_string()));
    let any = ChatMessage::new(ChatMessageRole::Tool, None, None, Some("id".to_string()));
    assert_eq!(any.role, ChatMessageRole::Tool);
    assert_eq!(any.content, None);
    assert_eq!(any.tool_call_id, Some("id".to_string()));
}

#[test]
fn a_function_call_is_of_type_function() {
    let c = call("id-1", "f", "{\"x\":1}");
    assert_eq!(c.id, "id-1");
    assert_eq!(c.tool_type, "function");
    assert_eq!(c.function.name, "f");
    assert_eq!(c.function.arguments, "{\"x\":1}");
}

#[test]
fn a_request_holds_its_parts() {
    let request = CompletionRequest::new(
        vec![ChatMessage::user("hi".to_string())],
        "m".to_string(),
        serde_json::Number::from_f64(1.5),
        Some(7),
        None,
    );
    assert_eq!(request.messages.len(), 1);
    assert_eq!(request.model, "m");
    assert_eq!(request.temperature, serde_json::Number::from_f64(1.5));
    assert_eq!(request.max_tokens, Some(7));
    assert!(request.tools.is_none());
    let copy = request.clone();
    assert_eq!(copy.model, "m");
    assert_eq!(copy.temperature, request.temperature);
    assert_eq!(copy.messages[0].content, Some("hi".to_string()));
}

#[test]
fn copies_of_the_model_hold_the_same() {
    let message = ChatMessage::assistant(Some("t".to_string()), Some(vec![call("c", "f", "{}")]));
    let copy = message.clone();
    assert_eq!(copy.role, message.role);
    assert_eq!(copy.content, message.content);
    assert_eq!(copy.tool_calls.as_ref().unwrap()[0].id, "c");
    let response = CompletionResponse {
        kind: CompletionKind::Message { content: "x".to_string() },
        usage: Some(TokenUsage { prompt_tokens: 1, completion_tokens: 2, total_tokens: 3 }),
        finish_reason: Some("stop".to_string()),
    };
    let copy = response.clone();
    assert!(matches!(copy.kind, CompletionKind::Message { ref content } if content == "x"));
    assert_eq!(copy.usage, response.usage);
    assert_eq!(copy.finish_reason, response.finish_reason);
}

#[test]
fn roles_have_lower_case_names() {
    assert_eq!(role_name(ChatMessageRole::System), "system");
    assert_eq!(role_name(ChatMessageRole::User), "user");
    assert_eq!(role_name(ChatMessageRole::Assistant), "assistant");
    assert_eq!(role_name(ChatMessageRole::Tool), "tool");
    for role in [
        ChatMessageRole::System,
        ChatMessageRole::User,
        ChatMessageRole::Assistant,
        ChatMessageRole::Tool,
    ] {
        assert_eq!(parse_role(role_name(role)), Some(role));
    }
    assert_eq!(parse_role("System"), None);
    assert_eq!(parse_role(""), None);
    assert_eq!(parse_role("function"), None);
}

#[test]
fn messages_are_written_with_the_members_they_have() {
    assert_eq!(
        encode_message(&ChatMessage::user("hi".to_string())),
        parse(r#"{"role":"user","content":"hi"}"#)
    );
    assert_eq!(
        encode_message(&ChatMessage::assistant(None, Some(vec![call("c", "f", "{}")]))),
        parse(
            r#"{"role":"assistant","content":null,
                "tool_calls":[{"id":"c","type":"function","function":{"name":"f","arguments":"{}"}}]}"#
        )
    );
    assert_eq!(
        encode_message(&ChatMessage::tool_result("c".to_string(), "done".to_string())),
        parse(r#"{"role":"tool","content":"done","tool_call_id":"c"}"#)
    );
    assert_eq!(
        encode_tool_call(&call("c", "f", "{\"a\":1}")),
        parse(r#"{"id":"c","type":"function","function":{"name":"f","arguments":"{\"a\":1}"}}"#)
    );
}

#[test]
fn reading_a_written_message_gives_it_back() {
    let messages = vec![
        ChatMessage::system("s".to_string()),
        ChatMessage::user("u".to_string()),
        ChatMessage::assistant(None, Some(vec![call("c1", "f", "{}"), call("c2", "g", "[]")])),
        ChatMessage::assistant(Some("both".to_string()), Some(Vec::new())),
        ChatMessage::tool_result("c1".to_string(), "r".to_string()),
        ChatMessage::new(ChatMessageRole::User, None, None, None),
    ];
    for message in &messages {
        let read = decode_message(&encode_message(message)).unwrap();
        assert_eq!(read.role, message.role);
        assert_eq!(read.content, message.content);
        assert_eq!(read.tool_call_id, message.tool_call_id);
        match (&read.tool_calls, &message.tool_calls) {
            (None, None) => {}
            (Some(a), Some(b)) => {
                assert_eq!(a.len(), b.len());
                for (x, y) in a.iter().zip(b.iter()) {
                    assert_eq!(x.id, y.id);
                    assert_eq!(x.tool_type, y.tool_type);
                    assert_eq!(x.function.name, y.function.name);
                    assert_eq!(x.function.arguments, y.function.arguments);
                }
            }
            _ => panic!("tool calls differ"),
        }
    }
}

#[test]
fn reading_is_strict_about_required_members() {
    assert!(decode_message(&parse(r#"{"content":"x"}"#)).is_none());
    assert!(decode_message(&parse(r#"{"role":"nobody","content":"x"}"#)).is_none());
    assert!(decode_message(&parse(r#"{"role":"user","content":5}"#)).is_none());
    assert!(decode_message(&parse(r#"{"role":"user","tool_calls":{}}"#)).is_none());
    assert!(decode_message(&parse(r#"["user"]"#)).is_none());
    assert!(decode_message(&parse(r#"{"role":null}"#)).is_none());
    assert!(decode_tool_call(&parse(r#"{"id":"c","function":{"name":"f","arguments":"{}"}}"#))
        .is_none());
    assert!(decode_tool_call(&parse(
        r#"{"id":"c","type":"function","function":{"name":"f","arguments":{}}}"#
    ))
    .is_none());
    let lenient = decode_message(&parse(
        r#"{"role":"user","content":null,"tool_calls":null,"tool_call_id":null,"extra":1}"#,
    ))
    .unwrap();
    assert_eq!(lenient.role, ChatMessageRole::User);
    assert_eq!(lenient.content, None);
    assert!(lenient.tool_calls.is_none());
    assert_eq!(lenient.tool_call_id, None);
}

#[test]
fn a_schema_is_written_with_null_for_what_it_lacks() {
    let bare = JsonSchema { schema_type: "object".to_string(), properties: None, required: None };
    assert_eq!(
        encode_schema(&bare),
        parse(r#"{"type":"object","properties":null,"required":null}"#)
    );
    let mut properties = serde_json::Map::new();
    properties.insert("n".to_string(), parse(r#"{"type":"integer","minimum":0}"#));
    let full = JsonSchema {
        schema_type: "object".to_string(),
        properties: Some(properties),
        required: Some(vec!["n".to_string()]),
    };
    assert_eq!(
        encode_schema(&full),
        parse(
            r#"{"type":"object","properties":{"n":{"type":"integer","minimum":0}},"required":["n"]}"#
        )
    );
    let copy = Tool { name: "t".to_string(), description: "d".to_string(), parameters: full }.clone();
    assert_eq!(copy.parameters.properties.unwrap().get("n"), Some(&parse(r#"{"type":"integer","minimum":0}"#)));
}

#[test]
fn the_adapter_dispatches_to_its_provider() {
    let request = CompletionRequest::new(
        vec![ChatMessage::user("hi".to_string())],
        "m".to_string(),
        None,
        None,
        None,
    );
    let openai =
        get_provider(LlmConfig::new(Provider::OpenAI).with_api_key("k".to_string())).unwrap();
    let ollama = get_provider(LlmConfig::new(Provider::Ollama)).unwrap();
    assert!(matches!(openai, LlmAdapter::OpenAI(_)));
    assert_eq!(
        openai.completion_request(&request).unwrap().url,
        "https://api.openai.com/v1/chat/completions"
    );
    assert_eq!(
        ollama.completion_request(&request).unwrap().url,
        "http://localhost:11434/api/chat"
    );
    assert_eq!(ollama.stream_request(&request).unwrap().headers.len(), 1);
    assert_eq!(openai.stream_request(&request).unwrap().headers.len(), 2);

    let answer = openai
        .completion_response(&request, 200, r#"{"choices":[{"message":{"content":"yo"}}]}"#)
        .unwrap();
    assert!(matches!(answer.kind, CompletionKind::Message { ref content } if content == "yo"));
    let answer = ollama
        .completion_response(
            &request,
            200,
            r#"{"model":"m","created_at":"t","done":true,"message":{"role":"assistant","content":"yo"}}"#,
        )
        .unwrap();
    assert!(matches!(answer.kind, CompletionKind::Message { ref content } if content == "yo"));
    assert!(matches!(
        ollama.completion_response(&request, 429, "busy"),
        Err(ProviderError::ApiError { status: 429, .. })
    ));
}

#[test]
fn the_adapter_opens_the_stream_of_its_provider() {
    let openai =
        get_provider(LlmConfig::new(Provider::OpenAI).with_api_key("k".to_string())).unwrap();
    let ollama = get_provider(LlmConfig::new(Provider::Ollama)).unwrap();
    assert!(matches!(
        openai.open_stream(429, "slow down"),
        Err(ProviderError::ApiError { status: 429, .. })
    ));
    assert!(matches!(
        ollama.open_stream(500, "boom"),
        Err(ProviderError::ApiError { status: 500, .. })
    ));
    let mut stream = openai.open_stream(200, "").unwrap();
    assert!(matches!(stream, LlmStream::OpenAI(_)));
    let out = stream.push(b"data: {\"choices\":[{\"delta\":{\"content\":\"a\"}}]}\n");
    assert_eq!(out.chunks.len(), 1);
    let mut stream = ollama.open_stream(200, "").unwrap();
    assert!(matches!(stream, LlmStream::Ollama(_)));
    let out = stream.push(
        b"{\"model\":\"m\",\"created_at\":\"t\",\"message\":{\"role\":\"assistant\",\"content\":\"a\"},\"done\":false}\n",
    );
    assert_eq!(out.chunks.len(), 1);
}

#[test]
fn integers_are_narrowed_where_they_fit() {
    assert_eq!(merco_llmproxy::wire::narrow_u32(0), Some(0));
    assert_eq!(merco_llmproxy::wire::narrow_u32(4294967295), Some(u32::MAX));
    assert_eq!(merco_llmproxy::wire::narrow_u32(4294967296), None);
    assert_eq!(merco_llmproxy::wire::narrow_u32(u64::MAX), None);
    assert_eq!(merco_llmproxy::wire::narrow_usize(17), Some(17));
    assert_eq!(merco_llmproxy::wire::narrow_usize(usize::MAX as u64), Some(usize::MAX));
}

#[test]
fn providers_answer_through_the_shared_interface() {
    fn url_of<P: LlmProvider>(provider: &P, request: &CompletionRequest) -> String {
        provider.completion_request(request).unwrap().url
    }
    let request = CompletionRequest::new(
        vec![ChatMessage::user("hi".to_string())],
        "m".to_string(),
        None,
        None,
        None,
    );
    let openai = merco_llmproxy::OpenAIProvider::new(
        LlmConfig::new(Provider::OpenAI).with_api_key("k".to_string()),
    );
    let ollama = merco_llmproxy::OllamaProvider::new(LlmConfig::new(Provider::Ollama));
    assert_eq!(url_of(&openai, &request), "https://api.openai.com/v1/chat/completions");
    assert_eq!(url_of(&ollama, &request), "http://localhost:11434/api/chat");
    assert!(matches!(LlmProvider::open_stream(&openai, 200, ""), Ok(LlmStream::OpenAI(_))));
    assert!(matches!(LlmProvider::open_stream(&ollama, 200, ""), Ok(LlmStream::Ollama(_))));
    assert!(matches!(
        LlmProvider::open_stream(&ollama, 401, "denied"),
        Err(ProviderError::ApiError { status: 401, .. })
    ));
    let answer = LlmProvider::completion_response(
        &openai,
        &request,
        200,
        r#"{"choices":[{"message":{"content":"yo"}}]}"#,
    )
    .unwrap();
    assert!(matches!(answer.kind, CompletionKind::Message { ref content } if content == "yo"));
}
