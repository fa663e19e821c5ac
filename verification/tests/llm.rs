use parakeet_ptt::llm::{
    drain_sse_lines, llm_chat_completions_url, llm_health_url, read_sse_line,
    sanitize_model_answer, AnswerStream, LlmOptions, LlmProgress, LlmRuntimeConfig, SseError,
    SseStep,
};
use parakeet_ptt::protocol::{FloatBits, SessionId};

#[test]
fn llm_endpoint_urls_preserve_configured_base_path() {
    let base = "http://127.0.0.1:8080/api/v1";

    assert_eq!(
        llm_chat_completions_url(base).expect("chat URL should build"),
        "http://127.0.0.1:8080/api/v1/chat/completions"
    );
    assert_eq!(
        llm_health_url(base).expect("health URL should build"),
        "http://127.0.0.1:8080/api/v1/health"
    );
}

#[test]
fn llm_sanitize_model_answer_strips_think_blocks_without_raw_fallback() {
    assert_eq!(sanitize_model_answer("<think>hidden</think>"), "");
    assert_eq!(sanitize_model_answer("<think>hidden"), "");
    assert_eq!(
        sanitize_model_answer("<think>hidden</think> visible"),
        "visible"
    );
}

#[test]
fn app_sanitize_model_answer_strips_think_blocks_without_raw_fallback() {
    assert_eq!(sanitize_model_answer("<think>hidden</think>"), "");
    assert_eq!(sanitize_model_answer("<think>hidden"), "");
    assert_eq!(
        sanitize_model_answer("<think>hidden</think> visible"),
        "visible"
    );
}

#[test]
fn llm_drain_sse_lines_handles_utf8_split_across_chunks() {
    let mut buffer = Vec::new();
    buffer.extend_from_slice(b"data: {\"choices\":[{\"delta\":{\"content\":\"");
    buffer.extend_from_slice(&[0xF0, 0x9F]);

    let first_lines = drain_sse_lines(&mut buffer, false).expect("first parse should succeed");
    assert!(first_lines.is_empty());

    buffer.extend_from_slice(&[0x99, 0x82]);
    buffer.extend_from_slice(b"\"}}]}\n");
    let lines = drain_sse_lines(&mut buffer, false).expect("second parse should succeed");

    assert_eq!(
        lines,
        vec!["data: {\"choices\":[{\"delta\":{\"content\":\"🙂\"}}]}".to_string()]
    );
    assert!(buffer.is_empty());
}

#[test]
fn app_drain_sse_lines_handles_utf8_split_across_chunks() {
    let mut buffer = Vec::<u8>::new();

    let first = b"data: {\"choices\":[{\"delta\":{\"content\":\"caf";
    let second = b"\xC3\xA9\"}}]}\n";

    buffer.extend_from_slice(first);
    let first_lines = drain_sse_lines(&mut buffer, false).expect("first parse should succeed");
    assert!(first_lines.is_empty());

    buffer.extend_from_slice(second);
    let lines = drain_sse_lines(&mut buffer, false).expect("second parse should succeed");
    assert_eq!(
        lines,
        vec!["data: {\"choices\":[{\"delta\":{\"content\":\"café\"}}]}"]
    );
    assert!(buffer.is_empty());
}

fn options(overlay_stream: bool) -> LlmOptions {
    LlmOptions {
        model: "local".to_string(),
        timeout_seconds: 0,
        max_tokens: 0,
        temperature: FloatBits {
            bits: 0.5f32.to_bits(),
        },
        system_prompt: "Be brief.".to_string(),
        overlay_stream,
    }
}

#[test]
fn a_configuration_asks_for_something_at_least() {
    let config = LlmRuntimeConfig::new("http://127.0.0.1:8080/v1", options(true))
        .expect("a valid base URL");
    assert_eq!(config.label(), "http://127.0.0.1:8080/v1");
    assert_eq!(config.timeout_ms, 1_000);
    assert_eq!(config.max_tokens, 1);
    let error = LlmRuntimeConfig::new("nowhere", options(true)).expect_err("no URL");
    assert_eq!(error.context, "invalid LLM base URL: nowhere");
    assert_eq!(error.cause, "relative URL without a base");
}

#[test]
fn pieces_are_told_only_where_answers_are_streamed() {
    let session_id = SessionId { bits: 3 };
    let pieces = || vec!["A ".to_string(), "lock".to_string()];
    let telling = LlmRuntimeConfig::new("http://h/v1", options(true)).expect("a valid base URL");
    assert_eq!(
        telling.news_of(session_id, pieces()),
        vec![
            LlmProgress::Delta {
                session_id,
                delta: "A ".to_string()
            },
            LlmProgress::Delta {
                session_id,
                delta: "lock".to_string()
            },
        ]
    );
    let silent = LlmRuntimeConfig::new("http://h/v1", options(false)).expect("a valid base URL");
    assert!(silent.news_of(session_id, pieces()).is_empty());
}

#[test]
fn a_stream_is_put_together_from_its_chunks() {
    let mut stream = AnswerStream::new();
    let whole = "data: {\"choices\":[{\"delta\":{\"content\":\"caf\u{e9}\"}}]}\n\n\
                 : comment\n\
                 data: {\"choices\":[{\"delta\":{}}]}\n\
                 data: {\"choices\":[{\"delta\":{\"content\":\" ol\\u00e9\"}}]}\r\n\
                 data: [DONE]\n\
                 data: not read any more\n"
        .as_bytes()
        .to_vec();
    let mut deltas = Vec::new();
    for byte in whole {
        if stream.is_done() {
            break;
        }
        deltas.extend(stream.feed(&vec![byte]).expect("a good stream"));
    }
    assert_eq!(deltas, vec!["café", " olé"]);
    assert_eq!(stream.text(), "café olé");
    assert!(stream.is_done());
}

#[test]
fn what_is_left_at_the_end_is_read() {
    let mut stream = AnswerStream::new();
    let rest = b"data: {\"choices\":[{\"delta\":{\"content\":\"x\"}}]}".to_vec();
    assert!(stream.feed(&rest).expect("no line yet").is_empty());
    assert_eq!(stream.finish().expect("the last line"), vec!["x"]);
}

#[test]
fn pieces_before_a_broken_line_are_handed_out() {
    let chunk = b"data: {\"choices\":[{\"delta\":{\"content\":\"a\"}}]}\n\
                  data: {\"choices\":[{\"delta\":{\"content\":\"b\"}}]}\n\
                  data: {oops\n\
                  data: {\"choices\":[{\"delta\":{\"content\":\"c\"}}]}\n"
        .to_vec();
    let mut pieces = vec!["before".to_string()];
    let mut stream = AnswerStream::new();
    assert_eq!(
        stream.feed_into(&chunk, &mut pieces),
        Err("failed to parse llama SSE data payload as JSON: {oops".to_string())
    );
    assert_eq!(pieces, vec!["before", "a", "b"]);
    assert_eq!(stream.text(), "ab");
    assert!(AnswerStream::new().feed(&chunk).is_err());

    let mut tail = AnswerStream::new();
    let last = b"data: {\"choices\":[{\"delta\":{\"content\":\"x\"}}]}".to_vec();
    let mut pieces = Vec::new();
    assert_eq!(tail.feed_into(&last, &mut pieces), Ok(()));
    assert!(pieces.is_empty());
    assert_eq!(tail.finish_into(&mut pieces), Ok(()));
    assert_eq!(pieces, vec!["x"]);
}

#[test]
fn payloads_that_are_no_json_are_refused() {
    assert_eq!(
        read_sse_line("data: {oops"),
        Err("failed to parse llama SSE data payload as JSON: {oops".to_string())
    );
    assert_eq!(read_sse_line("event: x"), Ok(SseStep::Skip));
    assert_eq!(read_sse_line(""), Ok(SseStep::Skip));
    assert_eq!(read_sse_line("data:[DONE]"), Ok(SseStep::Done));
    assert_eq!(read_sse_line("data: {\"choices\":[]}"), Ok(SseStep::Skip));
}

#[test]
fn bytes_that_are_no_utf8_are_refused() {
    let mut line = vec![0xff, b'\n'];
    assert_eq!(drain_sse_lines(&mut line, false), Err(SseError::InvalidLine));
    let mut rest = vec![b'a', 0xc3];
    assert_eq!(
        drain_sse_lines(&mut rest, true),
        Err(SseError::InvalidTrailingBytes)
    );
    let mut rest = vec![b'a', 0xc3];
    assert_eq!(drain_sse_lines(&mut rest, false), Ok(vec![]));
    assert_eq!(rest, vec![b'a', 0xc3]);
}

#[test]
fn thoughts_in_the_middle_are_cut_out() {
    assert_eq!(
        sanitize_model_answer(" a <think>x</think> b <think>y</think>c "),
        "a  b c"
    );
    assert_eq!(sanitize_model_answer("a </think> b"), "a </think> b");
}
