use std::time::Duration;

use dd_agent::{ChatRequest, ChatResponse, Choice, LlmConfig, LlmError, Message, Role};
use std::collections::BTreeMap;

fn config_error(r: dd_agent::Result<LlmConfig>) -> String {
    match r {
        Err(LlmError::Config(m)) => m,
        other => panic!("expected a configuration error, got {:?}", other),
    }
}

#[test]
fn new_config_has_a_one_minute_timeout() {
    let c = LlmConfig::new("http://localhost:11434/v1", None, "qwen");
    assert_eq!(c.base_url, "http://localhost:11434/v1");
    assert_eq!(c.api_key, None);
    assert_eq!(c.default_model, "qwen");
    assert_eq!(c.timeout, Duration::from_secs(60));
}

#[test]
fn with_timeout_changes_only_the_timeout() {
    let c = LlmConfig::new("http://a", Some("k".to_string()), "m").with_timeout(Duration::from_millis(1500));
    assert_eq!(c.timeout, Duration::from_millis(1500));
    assert_eq!(c.api_key.as_deref(), Some("k"));
    assert_eq!(c.base_url, "http://a");
}

fn s(v: &str) -> Option<String> {
    Some(v.to_string())
}

#[test]
fn env_values_need_a_base_url_and_a_model() {
    assert_eq!(config_error(LlmConfig::from_env_values(None, s("m"), None, None)), "缺少环境变量 LLM_BASE_URL");
    assert_eq!(config_error(LlmConfig::from_env_values(s("  "), s("m"), None, None)), "缺少环境变量 LLM_BASE_URL");
    assert_eq!(config_error(LlmConfig::from_env_values(s("http://a"), None, None, None)), "缺少环境变量 LLM_MODEL");
    assert_eq!(config_error(LlmConfig::from_env_values(s("http://a"), s("\t"), None, None)), "缺少环境变量 LLM_MODEL");
}

#[test]
fn env_values_timeout_must_be_a_positive_number() {
    assert_eq!(
        config_error(LlmConfig::from_env_values(s("http://a"), s("m"), None, s("ten"))),
        "LLM_TIMEOUT_SECONDS 必须是正整数"
    );
    assert_eq!(
        config_error(LlmConfig::from_env_values(s("http://a"), s("m"), None, s("-3"))),
        "LLM_TIMEOUT_SECONDS 必须是正整数"
    );
    assert_eq!(
        config_error(LlmConfig::from_env_values(s("http://a"), s("m"), None, s("0"))),
        "LLM_TIMEOUT_SECONDS 必须大于 0"
    );
}

#[test]
fn env_values_build_a_config() {
    let c = LlmConfig::from_env_values(s("http://a"), s("m"), s("  "), s("+30")).unwrap();
    assert_eq!(c.api_key, None);
    assert_eq!(c.timeout, Duration::from_secs(30));
    let c = LlmConfig::from_env_values(s("http://a"), s("m"), s("key"), None).unwrap();
    assert_eq!(c.api_key.as_deref(), Some("key"));
    assert_eq!(c.timeout, Duration::from_secs(60));
    assert_eq!(c.default_model, "m");
}

#[test]
fn message_constructors_set_role_and_text() {
    let cases = [
        (Message::developer("d"), Role::Developer),
        (Message::system("s"), Role::System),
        (Message::user("u"), Role::User),
        (Message::assistant("a"), Role::Assistant),
    ];
    for (m, role) in cases {
        assert_eq!(m.role, role);
        assert!(m.content.is_some());
        assert_eq!(m.name, None);
        assert_eq!(m.tool_call_id, None);
        assert!(m.tool_calls.is_empty());
        assert!(m.extra.is_empty());
    }
    assert_eq!(Message::user("ping"), Message::text(Role::User, "ping"));
}

#[test]
fn tool_messages_name_their_call() {
    let m = Message::tool("call_1", "{\"success\":true}");
    assert_eq!(m.role, Role::Tool);
    assert_eq!(m.tool_call_id.as_deref(), Some("call_1"));
    assert_eq!(m.content.as_deref(), Some("{\"success\":true}"));
}

#[test]
fn new_requests_leave_every_option_unset() {
    let r = ChatRequest::new("gpt", vec![Message::user("hi")]);
    assert_eq!(r.model, "gpt");
    assert_eq!(r.messages.len(), 1);
    assert!(!r.stream);
    assert_eq!(r.temperature_bits, None);
    assert_eq!(r.max_completion_tokens, None);
    assert!(r.tools.is_empty());
    assert!(r.tool_choice.is_none());
    assert!(r.response_format.is_none());
    assert!(r.extra.is_empty());
}

fn response(choices: Vec<Choice>) -> ChatResponse {
    ChatResponse {
        id: String::new(),
        object: String::new(),
        created: 0,
        model: String::new(),
        choices,
        usage: None,
        extra: BTreeMap::new(),
    }
}

fn choice(message: Message, finish: Option<&str>) -> Choice {
    Choice { index: 0, message, finish_reason: finish.map(|f| f.to_string()), extra: BTreeMap::new() }
}

#[test]
fn first_text_reads_the_first_choice() {
    assert_eq!(response(vec![]).first_text(), None);
    let r = response(vec![choice(Message::assistant("pong"), Some("stop")), choice(Message::assistant("other"), None)]);
    assert_eq!(r.first_text(), Some("pong"));
    let mut silent = Message::assistant("");
    silent.content = None;
    assert_eq!(response(vec![choice(silent, None)]).first_text(), None);
}
