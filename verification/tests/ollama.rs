use merco_llmproxy::config::{LlmConfig, Provider};
use merco_llmproxy::providers::ollama::{OllamaProvider, TOOL_PROMPT_HEADER};
use merco_llmproxy::providers::ollama_stream::OllamaStream;
use merco_llmproxy::providers::ollama_wire::{OllamaToolCall, OllamaToolFunction};
use merco_llmproxy::providers::stream::StreamPhase;
use merco_llmproxy::traits::{
    ChatMessage, ChatMessageRole, CompletionKind, CompletionRequest, JsonSchema, ProviderError,
    StreamContentDelta, TokenUsage, Tool, ToolCallFunction, ToolCallRequest,
};

fn provider() -> OllamaProvider {
    OllamaProvider::new(LlmConfig::new(Provider::Ollama))
}

fn parse(text: &str) -> serde_json::Value {
    serde_json::from_str(text).unwrap()
}

fn sum_tool() -> Tool {
    let mut a = serde_json::Map::new();
    a.insert("type".to_string(), serde_json::Value::String("integer".to_string()));
    let mut properties = serde_json::Map::new();
    properties.insert("a".to_string(), serde_json::Value::Object(a));
    Tool {
        name: "sum".to_string(),
        description: "Adds numbers".to_string(),
        parameters: JsonSchema {
            schema_type: "object".to_string(),
            properties: Some(properties),
            required: Some(vec!["a".to_string()]),
        },
    }
}

fn request(messages: Vec<ChatMessage>, tools: Option<Vec<Tool>>) -> CompletionRequest {
    CompletionRequest::new(messages, "qwen3:4b".to_string(), None, None, tools)
}

fn text_of(delta: &StreamContentDelta) -> &str {
    match delta {
        StreamContentDelta::Text(s) => s,
        _ => panic!("expected text"),
    }
}

#[test]
fn the_default_address_is_local() {
    assert_eq!(provider().endpoint(), "http://localhost:11434/api/chat");
    let config = LlmConfig::new(Provider::Ollama).with_base_url("http://box:1234".to_string());
    assert_eq!(OllamaProvider::new(config).endpoint(), "http://box:1234/api/chat");
    assert_eq!(
        provider().build_headers(),
        vec![("Content-Type".to_string(), "application/json".to_string())]
    );
}

#[test]
fn usage_is_the_sum_of_both_counts() {
    assert_eq!(
        OllamaProvider::calculate_usage(Some(12), Some(30)),
        Some(TokenUsage { prompt_tokens: 12, completion_tokens: 30, total_tokens: 42 })
    );
    assert_eq!(
        OllamaProvider::calculate_usage(Some(0), Some(0)),
        Some(TokenUsage { prompt_tokens: 0, completion_tokens: 0, total_tokens: 0 })
    );
    assert_eq!(OllamaProvider::calculate_usage(Some(12), None), None);
    assert_eq!(OllamaProvider::calculate_usage(None, Some(30)), None);
    assert_eq!(OllamaProvider::calculate_usage(None, None), None);
    assert_eq!(
        OllamaProvider::calculate_usage(Some(u32::MAX), Some(0)),
        Some(TokenUsage { prompt_tokens: u32::MAX, completion_tokens: 0, total_tokens: u32::MAX })
    );
    assert_eq!(OllamaProvider::calculate_usage(Some(u32::MAX), Some(1)), None);
}

#[test]
fn options_hold_what_the_request_sets() {
    let mut req = request(Vec::new(), None);
    assert!(OllamaProvider::create_ollama_options(&req).is_none());
    req.max_tokens = Some(128);
    assert_eq!(OllamaProvider::create_ollama_options(&req), Some(parse(r#"{"num_predict":128}"#)));
    req.temperature = serde_json::Number::from_f64(0.25);
    assert_eq!(
        OllamaProvider::create_ollama_options(&req),
        Some(parse(r#"{"num_predict":128,"temperature":0.25}"#))
    );
    req.max_tokens = None;
    assert_eq!(
        OllamaProvider::create_ollama_options(&req),
        Some(parse(r#"{"temperature":0.25}"#))
    );
}

#[test]
fn the_prompt_lists_each_tool() {
    assert_eq!(OllamaProvider::format_tools_for_prompt(&[]), TOOL_PROMPT_HEADER);
    let prompt = OllamaProvider::format_tools_for_prompt(&[sum_tool()]);
    let schema = serde_json::to_string_pretty(&parse(
        r#"{"type":"object","properties":{"a":{"type":"integer"}},"required":["a"]}"#,
    ))
    .unwrap();
    let expected = format!(
        "{}- Name: sum\n  Description: Adds numbers\n  Parameters Schema: {}\n",
        TOOL_PROMPT_HEADER, schema
    );
    assert_eq!(prompt, expected);
    assert!(prompt.contains("\n  \"required\": [\n    \"a\"\n  ]"));
    let two = OllamaProvider::format_tools_for_prompt(&[sum_tool(), sum_tool()]);
    assert_eq!(two.matches("- Name: sum\n").count(), 2);
    assert!(two.starts_with(TOOL_PROMPT_HEADER));
}

#[test]
fn the_prompt_goes_into_the_first_system_message() {
    let messages = vec![
        ChatMessage::user("hi".to_string()),
        ChatMessage::system("Be kind.".to_string()),
        ChatMessage::system("Be brief.".to_string()),
    ];
    let out = OllamaProvider::inject_prompt(&messages, "TOOLS".to_string());
    assert_eq!(out.len(), 3);
    assert_eq!(out[0].content, Some("hi".to_string()));
    assert_eq!(out[1].role, ChatMessageRole::System);
    assert_eq!(out[1].content, Some("Be kind.\n\nTOOLS".to_string()));
    assert_eq!(out[2].content, Some("Be brief.".to_string()));
    assert_eq!(OllamaProvider::first_system(&messages), Some(1));
}

#[test]
fn without_a_system_message_the_prompt_comes_first() {
    let messages = vec![ChatMessage::user("hi".to_string()), ChatMessage::user("there".to_string())];
    let out = OllamaProvider::inject_prompt(&messages, "TOOLS".to_string());
    assert_eq!(out.len(), 3);
    assert_eq!(out[0].role, ChatMessageRole::System);
    assert_eq!(out[0].content, Some("TOOLS".to_string()));
    assert!(out[0].tool_calls.is_none());
    assert_eq!(out[0].tool_call_id, None);
    assert_eq!(out[1].content, Some("hi".to_string()));
    assert_eq!(out[2].content, Some("there".to_string()));
    assert_eq!(OllamaProvider::first_system(&messages), None);
    let alone = OllamaProvider::inject_prompt(&Vec::new(), "TOOLS".to_string());
    assert_eq!(alone.len(), 1);
}

#[test]
fn a_system_message_without_text_takes_the_prompt() {
    let messages = vec![ChatMessage::new(ChatMessageRole::System, None, None, None)];
    let out = OllamaProvider::inject_prompt(&messages, "TOOLS".to_string());
    assert_eq!(out[0].content, Some("\n\nTOOLS".to_string()));
}

#[test]
fn tool_calls_are_not_sent_back() {
    let call = ToolCallRequest::new_function_call(
        "c".to_string(),
        ToolCallFunction { name: "f".to_string(), arguments: "{}".to_string() },
    );
    let messages = vec![
        ChatMessage::assistant(Some("x".to_string()), Some(vec![call])),
        ChatMessage::tool_result("c".to_string(), "done".to_string()),
    ];
    let out = OllamaProvider::sanitize(&messages);
    assert_eq!(out.len(), 2);
    assert!(out[0].tool_calls.is_none());
    assert_eq!(out[0].content, Some("x".to_string()));
    assert_eq!(out[1].tool_call_id, Some("c".to_string()));
    assert_eq!(out[1].role, ChatMessageRole::Tool);
}

#[test]
fn a_request_without_tools_is_sent_plainly() {
    let req = request(vec![ChatMessage::user("Why is the sky blue?".to_string())], None);
    assert!(!OllamaProvider::json_mode(&req));
    let sent = provider().completion_request(&req).unwrap();
    assert_eq!(sent.url, "http://localhost:11434/api/chat");
    assert_eq!(
        parse(&sent.body),
        parse(
            r#"{"model":"qwen3:4b","stream":false,
                "messages":[{"role":"user","content":"Why is the sky blue?"}]}"#
        )
    );
}

#[test]
fn a_request_with_tools_asks_for_json() {
    let req = request(vec![ChatMessage::user("Add 1".to_string())], Some(vec![sum_tool()]));
    assert!(OllamaProvider::json_mode(&req));
    let sent = provider().completion_request(&req).unwrap();
    let body = parse(&sent.body);
    assert_eq!(body["format"], serde_json::Value::String("json".to_string()));
    assert_eq!(body["stream"], serde_json::Value::Bool(false));
    let messages = body["messages"].as_array().unwrap();
    assert_eq!(messages.len(), 2);
    assert_eq!(messages[0]["role"], "system");
    assert_eq!(
        messages[0]["content"].as_str().unwrap(),
        OllamaProvider::format_tools_for_prompt(&[sum_tool()])
    );
    assert_eq!(messages[1]["content"], "Add 1");
    assert_eq!(body.get("options"), None);
}

#[test]
fn an_empty_tool_list_is_no_tool_list() {
    let req = request(vec![ChatMessage::user("hi".to_string())], Some(Vec::new()));
    assert!(!OllamaProvider::json_mode(&req));
    let sent = provider().completion_request(&req).unwrap();
    let body = parse(&sent.body);
    assert_eq!(body.get("format"), None);
    assert_eq!(body["messages"].as_array().unwrap().len(), 1);
}

#[test]
fn a_custom_configuration_is_served_and_others_are_not() {
    let req = request(vec![ChatMessage::user("hi".to_string())], None);
    let custom = OllamaProvider::new(
        LlmConfig::new(Provider::Custom).with_base_url("http://host".to_string()),
    );
    assert!(custom.completion_request(&req).is_ok());
    assert!(custom.stream_request(&req).is_ok());
    let wrong = OllamaProvider::new(LlmConfig::new(Provider::OpenAI));
    match wrong.completion_request(&req) {
        Err(ProviderError::ConfigError(m)) => {
            assert_eq!(m, "Invalid provider configured for OllamaProvider")
        }
        _ => panic!("expected a configuration error"),
    }
    assert!(matches!(wrong.stream_request(&req), Err(ProviderError::ConfigError(_))));
}

#[test]
fn ollama_streaming_with_tools_is_unsupported() {
    let req = request(vec![ChatMessage::user("hi".to_string())], Some(vec![sum_tool()]));
    match provider().stream_request(&req) {
        Err(ProviderError::Unsupported(m)) => assert_eq!(
            m,
            "Streaming tool calls are not currently supported by the Ollama provider (requires format=json which disables streaming)."
        ),
        _ => panic!("expected an unsupported error"),
    }
    let empty = request(vec![ChatMessage::user("hi".to_string())], Some(Vec::new()));
    assert!(matches!(provider().stream_request(&empty), Err(ProviderError::Unsupported(_))));
}

#[test]
fn a_stream_request_keeps_the_messages_as_they_are() {
    let call = ToolCallRequest::new_function_call(
        "c".to_string(),
        ToolCallFunction { name: "f".to_string(), arguments: "{}".to_string() },
    );
    let mut req = request(vec![ChatMessage::assistant(None, Some(vec![call]))], None);
    req.max_tokens = Some(9);
    let sent = provider().stream_request(&req).unwrap();
    let body = parse(&sent.body);
    assert_eq!(body["stream"], serde_json::Value::Bool(true));
    assert_eq!(body.get("format"), None);
    assert_eq!(body["options"], parse(r#"{"num_predict":9}"#));
    assert_eq!(body["messages"][0]["tool_calls"][0]["id"], "c");
    assert_eq!(body["messages"][0]["content"], serde_json::Value::Null);
}

#[test]
fn arguments_are_written_out_as_text() {
    let calls = vec![
        OllamaToolCall {
            id: "1".to_string(),
            function: OllamaToolFunction { name: "f".to_string(), arguments: parse(r#"{"n":1}"#) },
        },
        OllamaToolCall {
            id: "2".to_string(),
            function: OllamaToolFunction {
                name: "g".to_string(),
                arguments: serde_json::Value::String("{\"already\": \"text\"}".to_string()),
            },
        },
        OllamaToolCall {
            id: "3".to_string(),
            function: OllamaToolFunction { name: "h".to_string(), arguments: parse("[1, 2.5, null]") },
        },
    ];
    let mapped = OllamaProvider::map_ollama_tool_calls(calls);
    assert_eq!(mapped.len(), 3);
    assert_eq!(mapped[0].id, "1");
    assert_eq!(mapped[0].tool_type, "function");
    assert_eq!(mapped[0].function.name, "f");
    assert_eq!(mapped[0].function.arguments, "{\"n\":1}");
    assert_eq!(mapped[1].function.arguments, "{\"already\": \"text\"}");
    assert_eq!(mapped[2].function.arguments, "[1,2.5,null]");
}

#[test]
fn a_tool_call_payload_in_the_message_content() {
    let content = r#"{"tool_calls":[{"id":"x","function":{"name":"f","arguments":{"n":1}}}]}"#;
    let mut message = serde_json::Map::new();
    message.insert("role".to_string(), serde_json::Value::String("assistant".to_string()));
    message.insert("content".to_string(), serde_json::Value::String(content.to_string()));
    let mut body = serde_json::Map::new();
    body.insert("model".to_string(), serde_json::Value::String("m".to_string()));
    body.insert("created_at".to_string(), serde_json::Value::String("now".to_string()));
    body.insert("done".to_string(), serde_json::Value::Bool(true));
    body.insert("message".to_string(), serde_json::Value::Object(message));
    body.insert("prompt_eval_count".to_string(), parse("10"));
    body.insert("eval_count".to_string(), parse("5"));
    let text = serde_json::to_string(&serde_json::Value::Object(body)).unwrap();

    let response = OllamaProvider::completion_response(200, &text, true).unwrap();
    match response.kind {
        CompletionKind::ToolCall { tool_calls } => {
            assert_eq!(tool_calls.len(), 1);
            assert_eq!(tool_calls[0].id, "x");
            assert_eq!(tool_calls[0].tool_type, "function");
            assert_eq!(tool_calls[0].function.name, "f");
            assert_eq!(tool_calls[0].function.arguments, "{\"n\":1}");
        }
        _ => panic!("expected tool calls"),
    }
    assert_eq!(response.finish_reason, Some("tool_calls".to_string()));
    assert_eq!(
        response.usage,
        Some(TokenUsage { prompt_tokens: 10, completion_tokens: 5, total_tokens: 15 })
    );
}

#[test]
fn top_level_tool_calls_come_first() {
    let body = r#"{"model":"m","created_at":"t","done":false,
        "message":{"role":"assistant","content":"ignored"},
        "tool_calls":[{"id":"a","function":{"name":"f","arguments":"{}"}}]}"#;
    let response = OllamaProvider::completion_response(200, body, true).unwrap();
    match response.kind {
        CompletionKind::ToolCall { tool_calls } => {
            assert_eq!(tool_calls.len(), 1);
            assert_eq!(tool_calls[0].function.arguments, "{}");
        }
        _ => panic!("expected tool calls"),
    }
    assert_eq!(response.finish_reason, None);
    assert_eq!(response.usage, None);
}

#[test]
fn content_that_is_no_payload_is_a_message() {
    for content in ["Just text", "{\"answer\": 42}", "{\"tool_calls\": 5}", ""] {
        let mut message = serde_json::Map::new();
        message.insert("role".to_string(), serde_json::Value::String("assistant".to_string()));
        message.insert("content".to_string(), serde_json::Value::String(content.to_string()));
        let mut body = serde_json::Map::new();
        body.insert("model".to_string(), serde_json::Value::String("m".to_string()));
        body.insert("created_at".to_string(), serde_json::Value::String("now".to_string()));
        body.insert("done".to_string(), serde_json::Value::Bool(true));
        body.insert("message".to_string(), serde_json::Value::Object(message));
        let text = serde_json::to_string(&serde_json::Value::Object(body)).unwrap();
        let response = OllamaProvider::completion_response(200, &text, true).unwrap();
        match response.kind {
            CompletionKind::Message { content: got } => assert_eq!(got, content),
            _ => panic!("expected a message"),
        }
        assert_eq!(response.finish_reason, Some("stop".to_string()));
    }
}

#[test]
fn a_message_without_content_is_an_empty_message() {
    let body = r#"{"model":"m","created_at":"t","done":true,"message":{"role":"assistant","content":null}}"#;
    let response = OllamaProvider::completion_response(200, body, true).unwrap();
    match response.kind {
        CompletionKind::Message { content } => assert_eq!(content, ""),
        _ => panic!("expected a message"),
    }
    assert_eq!(response.finish_reason, Some("stop".to_string()));
}

#[test]
fn a_structured_response_without_message_or_calls_is_a_parse_error() {
    let body = r#"{"model":"m","created_at":"t","done":true}"#;
    match OllamaProvider::completion_response(200, body, true) {
        Err(ProviderError::ParseError(m)) => assert_eq!(
            m,
            "Ollama JSON response did not contain expected 'message' or 'tool_calls' field."
        ),
        _ => panic!("expected a parse error"),
    }
}

#[test]
fn a_bare_payload_is_the_last_resort() {
    let body = r#"{"tool_calls":[{"id":"x","function":{"name":"f","arguments":{"n":[1,2]}}}]}"#;
    let response = OllamaProvider::completion_response(200, body, true).unwrap();
    match response.kind {
        CompletionKind::ToolCall { tool_calls } => {
            assert_eq!(tool_calls.len(), 1);
            assert_eq!(tool_calls[0].function.arguments, "{\"n\":[1,2]}");
        }
        _ => panic!("expected tool calls"),
    }
    assert_eq!(response.usage, None);
    assert_eq!(response.finish_reason, Some("tool_calls".to_string()));
}

#[test]
fn a_body_of_no_known_shape_is_a_parse_error() {
    for body in [r#"{}"#, r#"[1]"#, r#"{"tool_calls":[{"id":"x"}]}"#, r#"{"model":1}"#] {
        match OllamaProvider::completion_response(200, body, true) {
            Err(ProviderError::ParseError(m)) => {
                assert_eq!(m, "Ollama response is neither a chat response nor a tool-call payload")
            }
            _ => panic!("expected a parse error"),
        }
    }
    match OllamaProvider::completion_response(200, "not json", true) {
        Err(ProviderError::ParseError(m)) => assert_ne!(m, "not json"),
        _ => panic!("expected a parse error"),
    }
}

#[test]
fn a_plain_response_is_a_message() {
    let body = r#"{"model":"m","created_at":"t","done":true,"total_duration":5,
        "message":{"role":"assistant","content":"The sky scatters blue light."},
        "prompt_eval_count":7,"eval_count":8}"#;
    let response = OllamaProvider::completion_response(200, body, false).unwrap();
    match response.kind {
        CompletionKind::Message { content } => assert_eq!(content, "The sky scatters blue light."),
        _ => panic!("expected a message"),
    }
    assert_eq!(
        response.usage,
        Some(TokenUsage { prompt_tokens: 7, completion_tokens: 8, total_tokens: 15 })
    );
    assert_eq!(response.finish_reason, Some("stop".to_string()));
}

#[test]
fn a_plain_response_that_is_not_done_has_no_finish_reason() {
    let body = r#"{"model":"m","created_at":"t","done":false,"message":{"role":"assistant"}}"#;
    let response = OllamaProvider::completion_response(200, body, false).unwrap();
    match response.kind {
        CompletionKind::Message { content } => assert_eq!(content, ""),
        _ => panic!("expected a message"),
    }
    assert_eq!(response.finish_reason, None);
    assert_eq!(response.usage, None);
}

#[test]
fn a_plain_response_of_another_shape_is_a_parse_error() {
    for body in [
        r#"{"model":"m","created_at":"t","done":true}"#,
        r#"{"model":"m","created_at":"t","message":{"role":"assistant","content":"x"}}"#,
        r#"{"model":"m","created_at":"t","done":"yes","message":{"role":"assistant","content":"x"}}"#,
        r#"{"model":"m","created_at":"t","done":true,"message":{"role":"robot","content":"x"}}"#,
        r#"{"model":"m","created_at":"t","done":true,"eval_count":"many","message":{"role":"assistant","content":"x"}}"#,
        r#"{"model":"m","created_at":"t","done":true,"eval_duration":-3,"message":{"role":"assistant","content":"x"}}"#,
        r#"{"tool_calls":[]}"#,
    ] {
        match OllamaProvider::completion_response(200, body, false) {
            Err(ProviderError::ParseError(m)) => {
                assert_eq!(m, "Ollama response does not have the expected shape")
            }
            _ => panic!("expected a parse error for {}", body),
        }
    }
}

#[test]
fn an_ollama_failure_is_an_api_error() {
    match OllamaProvider::completion_response(429, r#"{"error":"too many requests"}"#, false) {
        Err(ProviderError::ApiError { status, message }) => {
            assert_eq!(status, 429);
            assert_eq!(message, "too many requests");
        }
        _ => panic!("expected an API error"),
    }
    match OllamaProvider::completion_response(404, r#"{"error":"model not found","hint":"pull it"}"#, true)
    {
        Err(ProviderError::ApiError { status, message }) => {
            assert_eq!(status, 404);
            assert_eq!(message, "model not found");
        }
        _ => panic!("expected an API error"),
    }
}

#[test]
fn an_ollama_failure_falls_back_to_the_raw_body() {
    for body in [
        "gateway down",
        r#"{"error":"x","code":5}"#,
        r#"{"message":"no error member"}"#,
        r#"{"error":{"message":"nested"}}"#,
        r#"["error"]"#,
    ] {
        match OllamaProvider::completion_response(500, body, false) {
            Err(ProviderError::ApiError { status, message }) => {
                assert_eq!(status, 500);
                assert_eq!(message, body);
            }
            _ => panic!("expected an API error"),
        }
    }
}

#[test]
fn each_line_of_a_stream_is_a_chunk() {
    let mut stream = OllamaStream::open(200, "").unwrap();
    let out = stream.push(
        b"{\"model\":\"m\",\"created_at\":\"t\",\"message\":{\"role\":\"assistant\",\"content\":\"Hel\"},\"done\":false}\n{\"model\":\"m\",\"created_at\":\"t\",\"message\":{\"role\":\"assistant\",\"content\":\"lo\"},\"done\":false}\n",
    );
    assert!(out.error.is_none());
    assert_eq!(out.chunks.len(), 2);
    assert_eq!(text_of(&out.chunks[0].delta), "Hel");
    assert_eq!(text_of(&out.chunks[1].delta), "lo");
    assert_eq!(out.chunks[0].usage, None);
    assert_eq!(out.chunks[0].finish_reason, None);
    assert_eq!(stream.phase(), StreamPhase::Open);
}

#[test]
fn the_last_line_carries_the_metadata_and_ends_the_stream() {
    let mut stream = OllamaStream::open(200, "").unwrap();
    let out = stream.push(
        b"{\"model\":\"m\",\"created_at\":\"t\",\"message\":{\"role\":\"assistant\",\"content\":\"\"},\"done\":true,\"done_reason\":\"stop\",\"prompt_eval_count\":3,\"eval_count\":4}\n{\"model\":\"m\",\"created_at\":\"t\",\"message\":{\"role\":\"assistant\",\"content\":\"late\"},\"done\":false}\n",
    );
    assert!(out.error.is_none());
    assert_eq!(out.chunks.len(), 1);
    assert_eq!(text_of(&out.chunks[0].delta), "");
    assert_eq!(out.chunks[0].finish_reason, Some("stop".to_string()));
    assert_eq!(
        out.chunks[0].usage,
        Some(TokenUsage { prompt_tokens: 3, completion_tokens: 4, total_tokens: 7 })
    );
    assert_eq!(stream.phase(), StreamPhase::Done);
    assert!(stream.push(b"{}\n").chunks.is_empty());
}

#[test]
fn a_line_without_text_is_no_chunk() {
    let mut stream = OllamaStream::open(200, "").unwrap();
    let out = stream.push(
        b"\n{\"model\":\"m\",\"created_at\":\"t\",\"message\":{\"role\":\"assistant\",\"content\":\"\"},\"done\":false}\n\n",
    );
    assert!(out.error.is_none());
    assert!(out.chunks.is_empty());
}

#[test]
fn a_line_that_cannot_be_read_aborts_the_stream() {
    let mut stream = OllamaStream::open(200, "").unwrap();
    let out = stream.push(
        b"{\"model\":\"m\",\"created_at\":\"t\",\"message\":{\"role\":\"assistant\",\"content\":\"a\"},\"done\":false}\n{broken\n{\"model\":\"m\",\"created_at\":\"t\",\"message\":{\"role\":\"assistant\",\"content\":\"b\"},\"done\":false}\n",
    );
    assert_eq!(out.chunks.len(), 1);
    assert_eq!(text_of(&out.chunks[0].delta), "a");
    match out.error {
        Some(ProviderError::ParseError(m)) => assert_ne!(m, "{broken"),
        _ => panic!("expected a parse error"),
    }
    assert_eq!(stream.phase(), StreamPhase::Failed);
    let later = stream.push(b"{broken again\n");
    assert!(later.chunks.is_empty());
    assert!(later.error.is_none());
}

#[test]
fn a_line_of_another_shape_aborts_the_stream() {
    let mut stream = OllamaStream::open(200, "").unwrap();
    let out = stream.push(b"{\"model\":\"m\",\"created_at\":\"t\",\"done\":false}\n");
    match out.error {
        Some(ProviderError::ParseError(m)) => {
            assert_eq!(m, "Ollama stream line does not have the expected shape")
        }
        _ => panic!("expected a parse error"),
    }
    assert_eq!(stream.phase(), StreamPhase::Failed);
}

#[test]
fn a_failed_status_opens_no_ollama_stream() {
    match OllamaStream::open(429, r#"{"error":"busy"}"#) {
        Err(ProviderError::ApiError { status, message }) => {
            assert_eq!(status, 429);
            assert_eq!(message, "busy");
        }
        _ => panic!("expected an API error"),
    }
    assert!(OllamaStream::open(204, "").is_ok());
}

#[test]
fn an_ollama_request_carries_the_body_it_is_given() {
    let sent = provider().request_carrying(Some("{}".to_string())).unwrap();
    assert_eq!(sent.body, "{}");
    assert_eq!(sent.url, "http://localhost:11434/api/chat");
    match provider().request_carrying(None) {
        Err(ProviderError::RequestError(m)) => assert_eq!(m, "Failed to encode the request body"),
        _ => panic!("expected a request error"),
    }
}

#[test]
fn a_tool_entry_shows_the_schema_it_is_given() {
    let mut text = "before\n".to_string();
    OllamaProvider::write_tool_entry(&mut text, &sum_tool(), Some("{}".to_string()));
    assert_eq!(
        text,
        "before\n- Name: sum\n  Description: Adds numbers\n  Parameters Schema: {}\n"
    );
    let mut text = String::new();
    OllamaProvider::write_tool_entry(&mut text, &sum_tool(), None);
    assert_eq!(
        text,
        "- Name: sum\n  Description: Adds numbers\n  Parameters Schema: (Failed to format)\n"
    );
    assert_eq!(OllamaProvider::text_or_empty(None), "");
    assert_eq!(OllamaProvider::text_or_empty(Some("[1]".to_string())), "[1]");
}
