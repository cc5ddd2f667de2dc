//! Configuration and the message types of the chat completion protocol.

use std::collections::BTreeMap;
use std::time::Duration;
use vstd::prelude::*;
use crate::error::{is_config_error, LlmError, Result};
use crate::foreign::{duration_from_secs, secs_duration};
use crate::text::{is_blank, is_blank_spec, parse_u64, parse_u64_spec};

verus! {

/// Seconds a request may take unless configured otherwise.
pub const DEFAULT_TIMEOUT_SECS: u64 = 60;

/// Client configuration. The API key is optional, for local services without authentication.
#[derive(Clone, Debug)]
pub struct LlmConfig {
    pub base_url: String,
    pub api_key: Option<String>,
    pub default_model: String,
    pub timeout: Duration,
}

/// A configuration value that is set and not blank.
pub open spec fn is_present(v: Option<String>) -> bool {
    v matches Some(s) && !is_blank_spec(s@)
}

/// `v` when it is set and not blank, else nothing.
pub open spec fn present_or_none(v: Option<String>) -> Option<String> {
    if is_present(v) {
        v
    } else {
        None
    }
}

/// The message for a missing configuration variable.
pub open spec fn missing_variable_message(name: Seq<char>) -> Seq<char> {
    "缺少环境变量 "@ + name
}

/// The message for a timeout that is not a whole number.
pub open spec fn timeout_not_number_message() -> Seq<char> {
    "LLM_TIMEOUT_SECONDS 必须是正整数"@
}

/// The message for a timeout of zero.
pub open spec fn timeout_zero_message() -> Seq<char> {
    "LLM_TIMEOUT_SECONDS 必须大于 0"@
}

/// A set, non-blank value, or the error that names the missing variable.
fn required_value(value: Option<String>, name: &str) -> (r: Result<String>)
    ensures
        is_present(value) ==> r == Ok::<String, LlmError>(value.unwrap()),
        !is_present(value) ==> is_config_error(r, missing_variable_message(name@)),
{
    match value {
        Some(v) => {
            if !is_blank(v.as_str()) {
                return Ok(v);
            }
        },
        None => {},
    }
    let mut message = String::from_str("缺少环境变量 ");
    message.append(name);
    Err(LlmError::Config(message))
}

impl LlmConfig {
    /// A configuration with the default timeout of `DEFAULT_TIMEOUT_SECS` seconds.
    pub fn new(base_url: &str, api_key: Option<String>, default_model: &str) -> (c: Self)
        ensures
            c.base_url@ == base_url@,
            c.api_key == api_key,
            c.default_model@ == default_model@,
            c.timeout == secs_duration(DEFAULT_TIMEOUT_SECS),
    {
        LlmConfig {
            base_url: String::from_str(base_url),
            api_key,
            default_model: String::from_str(default_model),
            timeout: duration_from_secs(DEFAULT_TIMEOUT_SECS),
        }
    }

    /// The same configuration with another timeout.
    pub fn with_timeout(self, timeout: Duration) -> (c: Self)
        ensures
            c.base_url == self.base_url,
            c.api_key == self.api_key,
            c.default_model == self.default_model,
            c.timeout == timeout,
    {
        let mut c = self;
        c.timeout = timeout;
        c
    }

    /// The configuration described by the values of `LLM_BASE_URL`, `LLM_MODEL`,
    /// `LLM_API_KEY` and `LLM_TIMEOUT_SECONDS` (each `None` when unset). The base URL
    /// and the model must be set and not blank; a blank API key counts as unset; the
    /// timeout, when set, must be a positive whole number of seconds.
    pub fn from_env_values(
        base_url: Option<String>,
        default_model: Option<String>,
        api_key: Option<String>,
        timeout_seconds: Option<String>,
    ) -> (r: Result<Self>)
        ensures
            !is_present(base_url) ==> is_config_error(r, missing_variable_message("LLM_BASE_URL"@)),
            is_present(base_url) && !is_present(default_model) ==> is_config_error(
                r,
                missing_variable_message("LLM_MODEL"@),
            ),
            is_present(base_url) && is_present(default_model) ==> match timeout_seconds {
                None => r matches Ok(c) && c.base_url == base_url.unwrap() && c.default_model
                    == default_model.unwrap() && c.api_key == present_or_none(api_key)
                    && c.timeout == secs_duration(DEFAULT_TIMEOUT_SECS),
                Some(t) => match parse_u64_spec(t@) {
                    None => is_config_error(r, timeout_not_number_message()),
                    Some(n) => if n == 0 {
                        is_config_error(r, timeout_zero_message())
                    } else {
                        r matches Ok(c) && c.base_url == base_url.unwrap() && c.default_model
                            == default_model.unwrap() && c.api_key == present_or_none(api_key)
                            && c.timeout == secs_duration(n)
                    },
                },
            },
    {
        let base_url = required_value(base_url, "LLM_BASE_URL")?;
        let default_model = required_value(default_model, "LLM_MODEL")?;
        let api_key = match api_key {
            Some(k) => if is_blank(k.as_str()) {
                None
            } else {
                Some(k)
            },
            None => None,
        };
        let timeout = match timeout_seconds {
            Some(value) => {
                let seconds = match parse_u64(value.as_str()) {
                    Some(n) => n,
                    None => {
                        return Err(
                            LlmError::Config(String::from_str("LLM_TIMEOUT_SECONDS 必须是正整数")),
                        );
                    },
                };
                if seconds == 0 {
                    return Err(LlmError::Config(String::from_str("LLM_TIMEOUT_SECONDS 必须大于 0")));
                }
                duration_from_secs(seconds)
            },
            None => duration_from_secs(DEFAULT_TIMEOUT_SECS),
        };
        Ok(LlmConfig { base_url, api_key, default_model, timeout })
    }
}


/// Who wrote a message.
#[derive(Clone, Debug, PartialEq, Eq, Structural)]
pub enum Role {
    Developer,
    System,
    User,
    Assistant,
    Tool,
}

/// One message of a conversation.
#[derive(Clone, Debug, PartialEq)]
pub struct Message {
    pub role: Role,
    pub content: Option<String>,
    pub name: Option<String>,
    pub tool_call_id: Option<String>,
    pub tool_calls: Vec<ToolCall>,
    /// Provider-specific fields, kept as they came.
    pub extra: BTreeMap<String, serde_json::Value>,
}

/// A message with `role` and text `content` and nothing else.
pub open spec fn is_text_message(m: Message, role: Role, content: Seq<char>) -> bool {
    &&& m.role == role
    &&& m.content matches Some(c) && c@ == content
    &&& m.name is None
    &&& m.tool_call_id is None
    &&& m.tool_calls@.len() == 0
    &&& m.extra@ == Map::<String, serde_json::Value>::empty()
}

/// The answer to tool call `call_id`, with text `content`.
pub open spec fn is_tool_message(m: Message, call_id: Seq<char>, content: Seq<char>) -> bool {
    &&& m.role == Role::Tool
    &&& m.content matches Some(c) && c@ == content
    &&& m.name is None
    &&& m.tool_call_id matches Some(id) && id@ == call_id
    &&& m.tool_calls@.len() == 0
    &&& m.extra@ == Map::<String, serde_json::Value>::empty()
}

impl Message {
    /// A text message from `role`.
    pub fn text(role: Role, content: &str) -> (m: Self)
        ensures
            is_text_message(m, role, content@),
    {
        Message {
            role,
            content: Some(String::from_str(content)),
            name: None,
            tool_call_id: None,
            tool_calls: Vec::new(),
            extra: BTreeMap::new(),
        }
    }

    /// A developer instruction.
    pub fn developer(content: &str) -> (m: Self)
        ensures
            is_text_message(m, Role::Developer, content@),
    {
        Self::text(Role::Developer, content)
    }

    /// A system instruction.
    pub fn system(content: &str) -> (m: Self)
        ensures
            is_text_message(m, Role::System, content@),
    {
        Self::text(Role::System, content)
    }

    /// A user message.
    pub fn user(content: &str) -> (m: Self)
        ensures
            is_text_message(m, Role::User, content@),
    {
        Self::text(Role::User, content)
    }

    /// An assistant message.
    pub fn assistant(content: &str) -> (m: Self)
        ensures
            is_text_message(m, Role::Assistant, content@),
    {
        Self::text(Role::Assistant, content)
    }

    /// The result of tool call `tool_call_id`.
    pub fn tool(tool_call_id: &str, content: &str) -> (m: Self)
        ensures
            is_tool_message(m, tool_call_id@, content@),
    {
        Message {
            role: Role::Tool,
            content: Some(String::from_str(content)),
            name: None,
            tool_call_id: Some(String::from_str(tool_call_id)),
            tool_calls: Vec::new(),
            extra: BTreeMap::new(),
        }
    }
}

/// A tool call requested by the model.
#[derive(Debug, PartialEq)]
pub struct ToolCall {
    pub id: String,
    pub kind: String,
    pub function: FunctionCall,
}

/// The function named in a tool call.
#[derive(Debug, PartialEq)]
pub struct FunctionCall {
    pub name: String,
    /// The arguments as the JSON text the service sent.
    pub arguments: String,
}

impl Clone for FunctionCall {
    fn clone(&self) -> (r: Self)
        ensures
            r == *self,
    {
        FunctionCall { name: self.name.clone(), arguments: self.arguments.clone() }
    }
}

impl Clone for ToolCall {
    fn clone(&self) -> (r: Self)
        ensures
            r == *self,
    {
        ToolCall { id: self.id.clone(), kind: self.kind.clone(), function: self.function.clone() }
    }
}

/// A chat completion request.
#[derive(Clone, Debug)]
pub struct ChatRequest {
    pub model: String,
    pub messages: Vec<Message>,
    pub stream: bool,
    /// The sampling temperature, as the bit pattern of an IEEE-754 single.
    pub temperature_bits: Option<u32>,
    pub max_completion_tokens: Option<u32>,
    pub tools: Vec<serde_json::Value>,
    pub tool_choice: Option<serde_json::Value>,
    pub response_format: Option<serde_json::Value>,
    /// Provider-specific fields, merged into the top level of the request.
    pub extra: BTreeMap<String, serde_json::Value>,
}

/// A request for `model` over `messages`, with every option unset.
pub open spec fn is_plain_request(r: ChatRequest, model: Seq<char>, messages: Seq<Message>) -> bool {
    &&& r.model@ == model
    &&& r.messages@ == messages
    &&& !r.stream
    &&& r.temperature_bits is None
    &&& r.max_completion_tokens is None
    &&& r.tools@.len() == 0
    &&& r.tool_choice is None
    &&& r.response_format is None
    &&& r.extra@ == Map::<String, serde_json::Value>::empty()
}

impl ChatRequest {
    /// A non-streaming request for `model` over `messages`.
    pub fn new(model: &str, messages: Vec<Message>) -> (r: Self)
        ensures
            is_plain_request(r, model@, messages@),
    {
        ChatRequest {
            model: String::from_str(model),
            messages,
            stream: false,
            temperature_bits: None,
            max_completion_tokens: None,
            tools: Vec::new(),
            tool_choice: None,
            response_format: None,
            extra: BTreeMap::new(),
        }
    }
}

/// A complete (non-streamed) reply.
#[derive(Clone, Debug)]
pub struct ChatResponse {
    pub id: String,
    pub object: String,
    pub created: u64,
    pub model: String,
    pub choices: Vec<Choice>,
    pub usage: Option<Usage>,
    pub extra: BTreeMap<String, serde_json::Value>,
}

impl ChatResponse {
    /// The text of the first choice, if there is a first choice and it has text.
    pub fn first_text(&self) -> (t: Option<&str>)
        ensures
            t is Some <==> (self.choices@.len() > 0 && self.choices@[0].message.content is Some),
            t matches Some(s) ==> s@ == self.choices@[0].message.content.unwrap()@,
    {
        if self.choices.len() == 0 {
            return None;
        }
        match &self.choices[0].message.content {
            Some(c) => Some(c.as_str()),
            None => None,
        }
    }
}

/// One alternative answer of a reply.
#[derive(Clone, Debug)]
pub struct Choice {
    pub index: u32,
    pub message: Message,
    pub finish_reason: Option<String>,
    pub extra: BTreeMap<String, serde_json::Value>,
}

/// Token accounting of a reply.
#[derive(Clone, Debug)]
pub struct Usage {
    pub prompt_tokens: u64,
    pub completion_tokens: u64,
    pub total_tokens: u64,
    pub extra: BTreeMap<String, serde_json::Value>,
}

/// One event of a streamed reply.
#[derive(Clone, Debug)]
pub struct ChatChunk {
    pub id: String,
    pub model: String,
    pub choices: Vec<ChunkChoice>,
    pub usage: Option<Usage>,
    pub extra: BTreeMap<String, serde_json::Value>,
}

/// One alternative within a streamed event.
#[derive(Clone, Debug)]
pub struct ChunkChoice {
    pub index: u32,
    pub delta: MessageDelta,
    pub finish_reason: Option<String>,
    pub extra: BTreeMap<String, serde_json::Value>,
}

/// The part of a message that one streamed event adds.
#[derive(Clone, Debug)]
pub struct MessageDelta {
    pub role: Option<Role>,
    pub content: Option<String>,
    /// Tool calls may arrive in fragments, so they are kept as the service sent them.
    pub tool_calls: Vec<serde_json::Value>,
    pub extra: BTreeMap<String, serde_json::Value>,
}

impl Default for MessageDelta {
    fn default() -> (d: Self)
        ensures
            d.role is None,
            d.content is None,
            d.tool_calls@.len() == 0,
            d.extra@ == Map::<String, serde_json::Value>::empty(),
    {
        MessageDelta { role: None, content: None, tool_calls: Vec::new(), extra: BTreeMap::new() }
    }
}

} // verus!
