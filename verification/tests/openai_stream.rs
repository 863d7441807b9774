use merco_llmproxy::providers::openai_stream::{
    classify_line, merge_fragment, OpenAIStream, SseEvent, ToolCallAggregator,
};
use merco_llmproxy::providers::stream::StreamPhase;
use merco_llmproxy::traits::{
    ProviderError, StreamContentDelta, TokenUsage, ToolCallFunctionStreamDelta,
    ToolCallStreamDelta,
};

fn fragment(
    index: usize,
    id: Option<&str>,
    name: Option<&str>,
    arguments: Option<&str>,
) -> ToolCallStreamDelta {
    ToolCallStreamDelta {
        index,
        id: id.map(|s| s.to_string()),
        function: Some(ToolCallFunctionStreamDelta {
            name: name.map(|s| s.to_string()),
            arguments: arguments.map(|s| s.to_string()),
        }),
    }
}

fn open() -> OpenAIStream {
    OpenAIStream::open(200, "").unwrap()
}

fn text_of(delta: &StreamContentDelta) -> &str {
    match delta {
        StreamContentDelta::Text(s) => s,
        _ => panic!("expected text"),
    }
}

fn calls_of(delta: &StreamContentDelta) -> &Vec<ToolCallStreamDelta> {
    match delta {
        StreamContentDelta::ToolCallDelta(calls) => calls,
        _ => panic!("expected tool calls"),
    }
}

#[test]
fn lines_are_classified() {
    assert!(matches!(classify_line(b""), SseEvent::Ignored));
    assert!(matches!(classify_line(b": comment"), SseEvent::Ignored));
    assert!(matches!(classify_line(b"event: ping"), SseEvent::Ignored));
    assert!(matches!(classify_line(b"data:"), SseEvent::Ignored));
    assert!(matches!(classify_line(b"data: "), SseEvent::Ignored));
    assert!(matches!(classify_line(b"data: [DONE]"), SseEvent::Done));
    match classify_line(b"data: {\"a\":1}") {
        SseEvent::Frame(payload) => assert_eq!(payload, b"{\"a\":1}"),
        _ => panic!("expected a frame"),
    }
    match classify_line(b"data: [DONE] ") {
        SseEvent::Frame(payload) => assert_eq!(payload, b"[DONE] "),
        _ => panic!("expected a frame"),
    }
    assert!(matches!(classify_line(b"Data: [DONE]"), SseEvent::Ignored));
}

#[test]
fn three_fragments_make_one_call() {
    let mut calls = ToolCallAggregator::new();
    let first = calls.merge(&fragment(0, Some("call_1"), Some("f"), Some("{\"a\":")));
    assert_eq!(first.id, Some("call_1".to_string()));
    assert_eq!(first.function.as_ref().unwrap().arguments, Some("{\"a\":".to_string()));
    let second = calls.merge(&fragment(0, None, None, Some("1,\"b\":")));
    assert_eq!(second.function.as_ref().unwrap().arguments, Some("{\"a\":1,\"b\":".to_string()));
    let third = calls.merge(&fragment(0, None, None, Some("2}")));
    assert_eq!(third.index, 0);
    assert_eq!(third.id, Some("call_1".to_string()));
    let function = third.function.unwrap();
    assert_eq!(function.name, Some("f".to_string()));
    assert_eq!(function.arguments, Some("{\"a\":1,\"b\":2}".to_string()));
}

#[test]
fn calls_at_other_indexes_are_kept_apart() {
    let mut calls = ToolCallAggregator::new();
    calls.merge(&fragment(0, Some("a"), Some("f"), Some("x")));
    calls.merge(&fragment(1, Some("b"), Some("g"), Some("y")));
    let zero = calls.merge(&fragment(0, None, None, Some("X")));
    let one = calls.merge(&fragment(1, None, None, Some("Y")));
    assert_eq!(zero.id, Some("a".to_string()));
    assert_eq!(zero.function.unwrap().arguments, Some("xX".to_string()));
    assert_eq!(one.id, Some("b".to_string()));
    assert_eq!(one.function.unwrap().arguments, Some("yY".to_string()));
}

#[test]
fn empty_values_do_not_overwrite() {
    let base = fragment(3, Some("id"), Some("name"), Some("args"));
    let merged = merge_fragment(Some(&base), &fragment(3, Some(""), Some(""), Some("")));
    assert_eq!(merged.id, Some("id".to_string()));
    let function = merged.function.unwrap();
    assert_eq!(function.name, Some("name".to_string()));
    assert_eq!(function.arguments, Some("args".to_string()));

    let merged = merge_fragment(Some(&base), &fragment(3, Some("new"), Some("other"), None));
    assert_eq!(merged.id, Some("new".to_string()));
    let function = merged.function.unwrap();
    assert_eq!(function.name, Some("other".to_string()));
    assert_eq!(function.arguments, Some("args".to_string()));
}

#[test]
fn a_fragment_without_function_keeps_the_function() {
    let base = fragment(0, Some("id"), Some("name"), Some("args"));
    let bare = ToolCallStreamDelta { index: 0, id: None, function: None };
    let merged = merge_fragment(Some(&base), &bare);
    assert_eq!(merged.id, Some("id".to_string()));
    assert_eq!(merged.function.unwrap().arguments, Some("args".to_string()));
    let fresh = merge_fragment(None, &bare);
    assert_eq!(fresh.index, 0);
    assert_eq!(fresh.id, None);
    assert!(fresh.function.is_none());
}

#[test]
fn clearing_forgets_the_calls() {
    let mut calls = ToolCallAggregator::new();
    calls.merge(&fragment(0, Some("a"), Some("f"), Some("x")));
    calls.clear();
    let again = calls.merge(&fragment(0, None, None, Some("y")));
    assert_eq!(again.id, None);
    assert_eq!(again.function.unwrap().arguments, Some("y".to_string()));
}

#[test]
fn streamed_tool_call_split_over_three_frames() {
    let mut stream = open();
    let out = stream.push(
        b"data: {\"choices\":[{\"delta\":{\"tool_calls\":[{\"index\":0,\"id\":\"call_1\",\"function\":{\"name\":\"f\",\"arguments\":\"{\\\"a\\\":\"}}]}}]}\n\n",
    );
    assert!(out.error.is_none());
    assert_eq!(out.chunks.len(), 1);
    let out = stream.push(
        b"data: {\"choices\":[{\"delta\":{\"tool_calls\":[{\"index\":0,\"function\":{\"arguments\":\"1,\\\"b\\\":\"}}]}}]}\n\n",
    );
    assert_eq!(out.chunks.len(), 1);
    let out = stream.push(
        b"data: {\"choices\":[{\"delta\":{\"tool_calls\":[{\"index\":0,\"function\":{\"arguments\":\"2}\"}}]}}]}\n\n",
    );
    assert!(out.error.is_none());
    assert_eq!(out.chunks.len(), 1);
    let calls = calls_of(&out.chunks[0].delta);
    assert_eq!(calls.len(), 1);
    assert_eq!(calls[0].index, 0);
    assert_eq!(calls[0].id, Some("call_1".to_string()));
    let function = calls[0].function.as_ref().unwrap();
    assert_eq!(function.name, Some("f".to_string()));
    assert_eq!(function.arguments, Some("{\"a\":1,\"b\":2}".to_string()));
    assert_eq!(out.chunks[0].usage, None);
    assert_eq!(out.chunks[0].finish_reason, None);
    assert_eq!(stream.phase(), StreamPhase::Open);
}

#[test]
fn every_frame_with_text_is_a_chunk() {
    let mut stream = open();
    let out = stream.push(
        b"data: {\"choices\":[{\"delta\":{\"content\":\"Hel\"}}]}\n\ndata: {\"choices\":[{\"delta\":{\"content\":\"lo\"}}]}\n\n",
    );
    assert!(out.error.is_none());
    assert_eq!(out.chunks.len(), 2);
    assert_eq!(text_of(&out.chunks[0].delta), "Hel");
    assert_eq!(text_of(&out.chunks[1].delta), "lo");
}

#[test]
fn the_last_frame_carries_the_metadata() {
    let mut stream = open();
    let out = stream.push(
        b"data: {\"choices\":[{\"delta\":{},\"finish_reason\":\"stop\"}],\"usage\":{\"prompt_tokens\":4,\"completion_tokens\":6,\"total_tokens\":10}}\n\ndata: [DONE]\n\n",
    );
    assert!(out.error.is_none());
    assert_eq!(out.chunks.len(), 1);
    assert_eq!(text_of(&out.chunks[0].delta), "");
    assert_eq!(out.chunks[0].finish_reason, Some("stop".to_string()));
    assert_eq!(
        out.chunks[0].usage,
        Some(TokenUsage { prompt_tokens: 4, completion_tokens: 6, total_tokens: 10 })
    );
    assert_eq!(stream.phase(), StreamPhase::Done);
}

#[test]
fn a_frame_with_usage_alone_is_a_terminal_chunk() {
    let mut stream = open();
    let out = stream.push(
        b"data: {\"choices\":[],\"usage\":{\"prompt_tokens\":1,\"completion_tokens\":1,\"total_tokens\":2}}\n",
    );
    assert_eq!(out.chunks.len(), 1);
    assert_eq!(text_of(&out.chunks[0].delta), "");
    assert_eq!(out.chunks[0].finish_reason, None);
    assert!(out.chunks[0].usage.is_some());
}

#[test]
fn a_frame_that_shows_nothing_is_no_chunk() {
    let mut stream = open();
    let out = stream.push(
        b"data: {\"choices\":[{\"delta\":{\"role\":\"assistant\",\"content\":\"\"}}]}\n\ndata: {\"choices\":[]}\n\ndata: {\"choices\":[{\"delta\":{\"tool_calls\":[]}}]}\n\n: keep-alive\n\n",
    );
    assert!(out.error.is_none());
    assert!(out.chunks.is_empty());
    assert_eq!(stream.phase(), StreamPhase::Open);
}

#[test]
fn text_clears_the_accumulated_calls() {
    let mut stream = open();
    stream.push(
        b"data: {\"choices\":[{\"delta\":{\"tool_calls\":[{\"index\":0,\"id\":\"a\",\"function\":{\"arguments\":\"x\"}}]}}]}\n",
    );
    stream.push(b"data: {\"choices\":[{\"delta\":{\"content\":\"text\"}}]}\n");
    let out = stream.push(
        b"data: {\"choices\":[{\"delta\":{\"tool_calls\":[{\"index\":0,\"function\":{\"arguments\":\"y\"}}]}}]}\n",
    );
    let calls = calls_of(&out.chunks[0].delta);
    assert_eq!(calls[0].id, None);
    assert_eq!(calls[0].function.as_ref().unwrap().arguments, Some("y".to_string()));
}

#[test]
fn one_frame_may_touch_several_calls() {
    let mut stream = open();
    let out = stream.push(
        b"data: {\"choices\":[{\"delta\":{\"tool_calls\":[{\"index\":0,\"id\":\"a\",\"function\":{\"name\":\"f\",\"arguments\":\"1\"}},{\"index\":1,\"id\":\"b\",\"function\":{\"name\":\"g\",\"arguments\":\"2\"}},{\"index\":0,\"function\":{\"arguments\":\"3\"}}]}}]}\n",
    );
    let calls = calls_of(&out.chunks[0].delta);
    assert_eq!(calls.len(), 3);
    assert_eq!(calls[0].function.as_ref().unwrap().arguments, Some("1".to_string()));
    assert_eq!(calls[1].index, 1);
    assert_eq!(calls[1].id, Some("b".to_string()));
    assert_eq!(calls[2].index, 0);
    assert_eq!(calls[2].id, Some("a".to_string()));
    assert_eq!(calls[2].function.as_ref().unwrap().arguments, Some("13".to_string()));
}

#[test]
fn frames_after_the_end_marker_are_ignored() {
    let mut stream = open();
    let out = stream.push(
        b"data: {\"choices\":[{\"delta\":{\"content\":\"a\"}}]}\ndata: [DONE]\ndata: {\"choices\":[{\"delta\":{\"content\":\"b\"}}]}\ndata: not json\n",
    );
    assert!(out.error.is_none());
    assert_eq!(out.chunks.len(), 1);
    assert_eq!(text_of(&out.chunks[0].delta), "a");
    assert_eq!(stream.phase(), StreamPhase::Done);
    let later = stream.push(b"data: {\"choices\":[{\"delta\":{\"content\":\"c\"}}]}\n");
    assert!(later.chunks.is_empty());
    assert!(later.error.is_none());
}

#[test]
fn a_frame_that_is_not_json_fails_the_stream() {
    let mut stream = open();
    let out = stream.push(
        b"data: {\"choices\":[{\"delta\":{\"content\":\"a\"}}]}\ndata: {oops\ndata: {\"choices\":[{\"delta\":{\"content\":\"b\"}}]}\n",
    );
    assert_eq!(out.chunks.len(), 1);
    assert_eq!(text_of(&out.chunks[0].delta), "a");
    match out.error {
        Some(ProviderError::ParseError(m)) => {
            assert!(!m.is_empty());
            assert_ne!(m, "{oops");
        }
        _ => panic!("expected a parse error"),
    }
    assert_eq!(stream.phase(), StreamPhase::Failed);
    let later = stream.push(b"data: {\"choices\":[{\"delta\":{\"content\":\"c\"}}]}\n");
    assert!(later.chunks.is_empty());
    assert!(later.error.is_none());
}

#[test]
fn a_frame_of_another_shape_fails_the_stream() {
    let mut stream = open();
    let out = stream.push(b"data: {\"choices\":[{\"delta\":{\"tool_calls\":[{\"id\":\"a\"}]}}]}\n");
    assert!(out.chunks.is_empty());
    match out.error {
        Some(ProviderError::ParseError(m)) => {
            assert_eq!(m, "OpenAI stream frame does not have the expected shape")
        }
        _ => panic!("expected a parse error"),
    }
    assert_eq!(stream.phase(), StreamPhase::Failed);
}

#[test]
fn a_failed_status_opens_no_stream() {
    match OpenAIStream::open(429, r#"{"error":{"message":"Rate limit reached"}}"#) {
        Err(ProviderError::ApiError { status, message }) => {
            assert_eq!(status, 429);
            assert_eq!(message, "Rate limit reached");
        }
        _ => panic!("expected an API error"),
    }
    match OpenAIStream::open(500, "boom") {
        Err(ProviderError::ApiError { status, message }) => {
            assert_eq!(status, 500);
            assert_eq!(message, "boom");
        }
        _ => panic!("expected an API error"),
    }
    assert_eq!(OpenAIStream::open(200, "").unwrap().phase(), StreamPhase::Open);
}
