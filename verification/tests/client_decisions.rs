use dd_agent::client::{api_error_with_reason, check_base_url, check_endpoint, decoded_chunk, stream_step, StreamStep};
use std::time::Duration;

use dd_agent::client::{
    api_error, classify_event, is_success_status, parse_api_message, ApiErrorBody, ApiErrorEnvelope,
    StreamEvent,
};
use dd_agent::{LlmConfig, LlmError, Message, OpenAiCompatibleClient};

fn config_error(r: dd_agent::Result<OpenAiCompatibleClient>) -> String {
    match r {
        Err(LlmError::Config(m)) => m,
        other => panic!("expected a configuration error, got {:?}", other),
    }
}

#[test]
fn endpoint_is_chat_completions_under_the_base_url() {
    let c = OpenAiCompatibleClient::new(LlmConfig::new("http://127.0.0.1:8080/v1", Some("secret".into()), "test")).unwrap();
    assert_eq!(c.endpoint(), "http://127.0.0.1:8080/v1/chat/completions");
    assert_eq!(c.default_model(), "test");
    assert_eq!(c.api_key().as_deref(), Some("secret"));
    assert_eq!(c.timeout(), Duration::from_secs(60));
}

#[test]
fn trailing_slashes_on_the_base_url_do_not_matter() {
    let a = OpenAiCompatibleClient::new(LlmConfig::new("https://api.example.com/v1", None, "m")).unwrap();
    let b = OpenAiCompatibleClient::new(LlmConfig::new("https://api.example.com/v1///", None, "m")).unwrap();
    assert_eq!(a.endpoint(), b.endpoint());
    assert_eq!(a.endpoint(), "https://api.example.com/v1/chat/completions");
}

#[test]
fn blank_model_is_refused() {
    assert_eq!(config_error(OpenAiCompatibleClient::new(LlmConfig::new("http://a", None, "  "))), "模型名称不能为空");
}

#[test]
fn unparsable_base_url_is_refused() {
    let m = config_error(OpenAiCompatibleClient::new(LlmConfig::new("not a url", None, "m")));
    assert!(m.starts_with("LLM_BASE_URL 不是有效 URL："), "{m}");
    assert!(m.len() > "LLM_BASE_URL 不是有效 URL：".len());
}

#[test]
fn unacceptable_base_urls_are_refused() {
    let expected = "LLM_BASE_URL 必须是无凭据、查询参数和片段的 HTTP(S) 地址";
    for base in [
        "ftp://example.com/v1",
        "http://user:pw@example.com/v1",
        "http://user@example.com/v1",
        "http://example.com/v1?x=1",
        "http://example.com/v1#top",
        "data:text/plain,hi",
    ] {
        assert_eq!(config_error(OpenAiCompatibleClient::new(LlmConfig::new(base, None, "m"))), expected, "{base}");
    }
}

#[test]
fn requests_use_the_default_model() {
    let c = OpenAiCompatibleClient::new(LlmConfig::new("http://a/v1", None, "test")).unwrap();
    let r = c.request(vec![Message::user("ping")]);
    assert_eq!(r.model, "test");
    assert_eq!(r.messages, vec![Message::user("ping")]);
    assert!(!r.stream);
}

#[test]
fn success_statuses() {
    assert!(is_success_status(200));
    assert!(is_success_status(204));
    assert!(is_success_status(299));
    assert!(!is_success_status(199));
    assert!(!is_success_status(300));
    assert!(!is_success_status(401));
}

fn envelope(message: &str) -> Option<ApiErrorEnvelope> {
    Some(ApiErrorEnvelope { error: ApiErrorBody { message: message.to_string() } })
}

#[test]
fn service_messages_are_kept_unless_blank() {
    assert_eq!(parse_api_message(envelope("bad key")), Some("bad key".to_string()));
    assert_eq!(parse_api_message(envelope("  ")), None);
    assert_eq!(parse_api_message(None), None);
}

#[test]
fn api_errors_prefer_the_service_message() {
    let body = r#"{"error":{"message":"bad key"}}"#.to_string();
    match api_error(401, envelope("bad key"), body.clone()) {
        LlmError::Api { status, message, body: b } => {
            assert_eq!(status, 401);
            assert_eq!(message, "bad key");
            assert_eq!(b, body);
        }
        other => panic!("{:?}", other),
    }
}

#[test]
fn api_errors_fall_back_to_the_reason_phrase() {
    match api_error(401, envelope(""), "oops".to_string()) {
        LlmError::Api { message, .. } => assert_eq!(message, "Unauthorized"),
        other => panic!("{:?}", other),
    }
    match api_error(503, None, String::new()) {
        LlmError::Api { message, .. } => assert_eq!(message, "Service Unavailable"),
        other => panic!("{:?}", other),
    }
    match api_error(599, None, String::new()) {
        LlmError::Api { message, .. } => assert_eq!(message, "未知接口错误"),
        other => panic!("{:?}", other),
    }
}

#[test]
fn stream_events_are_classified() {
    assert_eq!(classify_event("[DONE]"), StreamEvent::Done);
    assert_eq!(classify_event(" [DONE]\n"), StreamEvent::Done);
    assert_eq!(classify_event(""), StreamEvent::Skip);
    assert_eq!(classify_event("  \n"), StreamEvent::Skip);
    assert_eq!(classify_event("{\"id\":\"chat-1\"}"), StreamEvent::Chunk);
    assert_eq!(classify_event("[DONE]x"), StreamEvent::Chunk);
}

fn parts(scheme: &str, host: Option<&str>, username: &str, password: Option<&str>, query: Option<&str>, fragment: Option<&str>) -> dd_agent::foreign::UrlParts {
    dd_agent::foreign::UrlParts {
        scheme: scheme.to_string(),
        host: host.map(str::to_string),
        username: username.to_string(),
        password: password.map(str::to_string),
        query: query.map(str::to_string),
        fragment: fragment.map(str::to_string),
        href: format!("{scheme}://example/"),
    }
}

#[test]
fn base_url_checks_on_parsed_parts() {
    let ok = check_base_url(Ok(parts("https", Some("example"), "", None, None, None))).unwrap();
    assert_eq!(ok.href, "https://example/");
    let unacceptable = "LLM_BASE_URL 必须是无凭据、查询参数和片段的 HTTP(S) 地址";
    for p in [
        parts("ws", Some("example"), "", None, None, None),
        parts("http", None, "", None, None, None),
        parts("http", Some("example"), "me", None, None, None),
        parts("http", Some("example"), "", Some(""), None, None),
        parts("http", Some("example"), "", None, Some(""), None),
        parts("http", Some("example"), "", None, None, Some("")),
    ] {
        match check_base_url(Ok(p)) {
            Err(LlmError::Config(m)) => assert_eq!(m, unacceptable),
            other => panic!("{:?}", other.map(|p| p.href)),
        }
    }
    match check_base_url(Err("relative URL without a base".to_string())) {
        Err(LlmError::Config(m)) => assert_eq!(m, "LLM_BASE_URL 不是有效 URL：relative URL without a base"),
        other => panic!("{:?}", other.map(|p| p.href)),
    }
}

#[test]
fn endpoint_errors_are_configuration_errors() {
    assert_eq!(check_endpoint(Ok("http://a/chat/completions".to_string())).unwrap(), "http://a/chat/completions");
    match check_endpoint(Err("bad".to_string())) {
        Err(LlmError::Config(m)) => assert_eq!(m, "无法生成接口地址：bad"),
        other => panic!("{:?}", other),
    }
}

#[test]
fn api_error_with_a_given_reason() {
    match api_error_with_reason(418, None, "b".to_string(), Some("I'm a teapot".to_string())) {
        LlmError::Api { status, message, body } => {
            assert_eq!((status, message.as_str(), body.as_str()), (418, "I'm a teapot", "b"));
        }
        other => panic!("{:?}", other),
    }
    match api_error_with_reason(500, envelope("overloaded"), String::new(), Some("Internal Server Error".to_string())) {
        LlmError::Api { message, .. } => assert_eq!(message, "overloaded"),
        other => panic!("{:?}", other),
    }
    match api_error_with_reason(500, None, String::new(), None) {
        LlmError::Api { message, .. } => assert_eq!(message, "未知接口错误"),
        other => panic!("{:?}", other),
    }
}

#[test]
fn stream_steps() {
    assert!(matches!(stream_step(Ok(" [DONE] ")), StreamStep::Finish));
    assert!(matches!(stream_step(Ok("")), StreamStep::Skip));
    assert!(matches!(stream_step(Ok("{}")), StreamStep::Decode));
    match stream_step(Err("connection reset".to_string())) {
        StreamStep::Fail(LlmError::Stream(m)) => assert_eq!(m, "connection reset"),
        other => panic!("{:?}", other),
    }
}

#[test]
fn decoding_failures_keep_the_data() {
    let chunk = dd_agent::ChatChunk {
        id: "chat-1".to_string(),
        model: "test".to_string(),
        choices: vec![],
        usage: None,
        extra: std::collections::BTreeMap::new(),
    };
    assert_eq!(decoded_chunk(Ok(chunk), String::new()).unwrap().id, "chat-1");
    let source = serde_json::from_str::<serde_json::Value>("{").unwrap_err();
    match decoded_chunk(Err(source), "{".to_string()) {
        Err(LlmError::Decode { body, .. }) => assert_eq!(body, "{"),
        other => panic!("{:?}", other),
    }
}
