use std::collections::BTreeMap;

use dd_agent::agent::{read_input, route_tool, unknown_tool_error, AgentError, AgentSession, Outcome, ToolRoute, UserInput, MAX_ROUNDS};
use dd_agent::{Choice, FunctionCall, Message, Role, ToolCall};

#[test]
fn exit_leaves_and_other_lines_ask() {
    assert_eq!(read_input("exit\n"), UserInput::Exit);
    assert_eq!(read_input("exit \r\n"), UserInput::Exit);
    assert_eq!(read_input(" exit"), UserInput::Ask(" exit".to_string()));
    assert_eq!(read_input("你好  \n"), UserInput::Ask("你好".to_string()));
}

#[test]
fn only_run_shell_is_routed_to_the_shell() {
    assert_eq!(route_tool("run_shell"), ToolRoute::RunShell);
    assert_eq!(route_tool("run_shell "), ToolRoute::Unknown);
    assert_eq!(route_tool("search"), ToolRoute::Unknown);
    assert_eq!(unknown_tool_error("search"), "未知工具：search");
}

fn call(id: &str, name: &str) -> ToolCall {
    ToolCall {
        id: id.to_string(),
        kind: "function".to_string(),
        function: FunctionCall { name: name.to_string(), arguments: "{\"command\":\"dir\"}".to_string() },
    }
}

fn choice(message: Message, finish: Option<&str>) -> Choice {
    Choice { index: 0, message, finish_reason: finish.map(|f| f.to_string()), extra: BTreeMap::new() }
}

#[test]
fn a_session_opens_with_the_system_prompt() {
    let s = AgentSession::new();
    assert_eq!(s.messages().len(), 1);
    assert_eq!(s.messages()[0], Message::system("你是本地agent助手，做危险的操作时，需要获取用户的授权"));
    assert!(s.can_request());
}

#[test]
fn tool_calls_are_run_and_recorded() {
    let mut s = AgentSession::new();
    s.begin_turn("list files");
    assert_eq!(s.messages()[1], Message::user("list files"));
    let mut reply = Message::assistant("");
    reply.content = None;
    reply.tool_calls = vec![call("c1", "run_shell"), call("c2", "other")];
    match s.on_reply(Some(choice(reply.clone(), Some("tool_calls")))).unwrap() {
        Outcome::RunTools(calls) => {
            assert_eq!(calls, reply.tool_calls);
            for c in calls {
                s.record_tool_result(&c.id, "{}");
            }
        }
        other => panic!("{:?}", other),
    }
    assert_eq!(s.messages().len(), 5);
    assert_eq!(s.messages()[2], reply);
    assert_eq!(s.messages()[3].role, Role::Tool);
    assert_eq!(s.messages()[4].tool_call_id.as_deref(), Some("c2"));
}

#[test]
fn stop_finishes_with_the_text() {
    let mut s = AgentSession::new();
    s.begin_turn("hi");
    match s.on_reply(Some(choice(Message::assistant("hello"), Some("stop")))).unwrap() {
        Outcome::Finished(t) => assert_eq!(t, "hello"),
        other => panic!("{:?}", other),
    }
    let mut empty = Message::assistant("");
    empty.content = None;
    match s.on_reply(Some(choice(empty, Some("stop")))).unwrap() {
        Outcome::Finished(t) => assert_eq!(t, ""),
        other => panic!("{:?}", other),
    }
}

#[test]
fn other_endings_are_reported() {
    let mut s = AgentSession::new();
    s.begin_turn("hi");
    assert!(matches!(s.on_reply(Some(choice(Message::assistant("x"), None))).unwrap(), Outcome::NoFinishReason));
    match s.on_reply(Some(choice(Message::assistant("x"), Some("length")))).unwrap() {
        Outcome::Unfinished(r) => assert_eq!(r, "length"),
        other => panic!("{:?}", other),
    }
}

#[test]
fn an_empty_reply_stops_the_agent() {
    let mut s = AgentSession::new();
    s.begin_turn("hi");
    let err = s.on_reply(None).unwrap_err();
    assert_eq!(err, AgentError::EmptyResponse);
    assert_eq!(err.message(), "大模型返回空");
    assert_eq!(s.messages().len(), 2);
}

#[test]
fn a_question_takes_at_most_eight_requests() {
    let mut s = AgentSession::new();
    s.begin_turn("loop");
    let mut requests = 0;
    while s.can_request() {
        let mut reply = Message::assistant("");
        reply.tool_calls = vec![call("c", "run_shell")];
        let _ = s.on_reply(Some(choice(reply, None))).unwrap();
        s.record_tool_result("c", "{}");
        requests += 1;
    }
    assert_eq!(requests, MAX_ROUNDS);
    assert_eq!(MAX_ROUNDS, 8);
    s.begin_turn("again");
    assert!(s.can_request());
}
