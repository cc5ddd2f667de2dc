//! The configuration side of an OpenAI-compatible chat completion client: endpoint
//! validation, request construction, and the decisions taken on replies.

use std::time::Duration;
use vstd::prelude::*;
use crate::error::{is_config_error, LlmError, Result};
use crate::foreign::{
    canonical_reason,
    join_url,
    joined_url,
    parse_url,
    parsed_url,
    status_reason,
    UrlParts,
    UrlView,
};
use crate::text::{
    all_white_space,
    is_blank,
    is_blank_spec,
    lemma_trim_ignores_surrounding_space,
    str_eq,
    strip_trailing,
    strip_trailing_spec,
    trim,
    trim_spec,
};
use crate::types::{is_plain_request, ChatChunk, ChatRequest, LlmConfig, Message};

verus! {

/// A validated client for an OpenAI-compatible chat completion service: the endpoint
/// to post to, the credentials, the default model and the request timeout.
#[derive(Clone, Debug)]
pub struct OpenAiCompatibleClient {
    endpoint: String,
    api_key: Option<String>,
    default_model: String,
    timeout: Duration,
}

/// What a client holds.
pub ghost struct ClientView {
    pub endpoint: Seq<char>,
    pub api_key: Option<String>,
    pub default_model: Seq<char>,
    pub timeout: Duration,
}

impl View for OpenAiCompatibleClient {
    type V = ClientView;

    closed spec fn view(&self) -> ClientView {
        ClientView {
            endpoint: self.endpoint@,
            api_key: self.api_key,
            default_model: self.default_model@,
            timeout: self.timeout,
        }
    }
}

/// The base URL as it is parsed: trailing slashes replaced by exactly one.
pub open spec fn normalized_base(base_url: Seq<char>) -> Seq<char> {
    strip_trailing_spec(base_url, '/').push('/')
}

proof fn lemma_strip_trailing_run(s: Seq<char>, w: Seq<char>, c: char)
    requires
        forall|i: int| 0 <= i < w.len() ==> #[trigger] w[i] == c,
    ensures
        strip_trailing_spec(s + w, c) == strip_trailing_spec(s, c),
    decreases w.len(),
{
    if w.len() == 0 {
        assert(s + w =~= s);
    } else {
        let v = w.drop_last();
        assert((s + w).last() == w.last());
        assert((s + w).drop_last() =~= s + v);
        assert forall|i: int| 0 <= i < v.len() implies #[trigger] v[i] == c by {
            assert(v[i] == w[i]);
        }
        lemma_strip_trailing_run(s, v, c);
    }
}

/// Slashes at the end of the base URL make no difference to the client that a
/// configuration gives, nor to the error it is refused with.
pub proof fn lemma_trailing_slashes_ignored(a: LlmConfig, b: LlmConfig, slashes: Seq<char>)
    requires
        forall|i: int| 0 <= i < slashes.len() ==> #[trigger] slashes[i] == '/',
        b.base_url@ == a.base_url@ + slashes,
        b.api_key == a.api_key,
        b.default_model@ == a.default_model@,
        b.timeout == a.timeout,
    ensures
        forall|r: Result<OpenAiCompatibleClient>| new_client_spec(a, r) == new_client_spec(b, r),
{
    lemma_strip_trailing_run(a.base_url@, slashes, '/');
}

/// An HTTP(S) URL with a host and without credentials, query or fragment.
pub open spec fn is_acceptable_base(p: UrlView) -> bool {
    &&& (p.scheme == "http"@ || p.scheme == "https"@)
    &&& p.host is Some
    &&& p.username.len() == 0
    &&& p.password is None
    &&& p.query is None
    &&& p.fragment is None
}

/// Path of the chat completion endpoint, relative to the base URL.
pub open spec fn endpoint_path() -> Seq<char> {
    "chat/completions"@
}

/// Message for a blank model name.
pub open spec fn empty_model_message() -> Seq<char> {
    "模型名称不能为空"@
}

/// Message for a base URL that does not parse.
pub open spec fn invalid_url_message(e: Seq<char>) -> Seq<char> {
    "LLM_BASE_URL 不是有效 URL："@ + e
}

/// Message for a base URL that parses but is not acceptable.
pub open spec fn unacceptable_url_message() -> Seq<char> {
    "LLM_BASE_URL 必须是无凭据、查询参数和片段的 HTTP(S) 地址"@
}

/// Message for an endpoint that cannot be formed from the base URL.
pub open spec fn endpoint_error_message(e: Seq<char>) -> Seq<char> {
    "无法生成接口地址："@ + e
}

/// What `OpenAiCompatibleClient::new` answers for `config`.
pub open spec fn new_client_spec(config: LlmConfig, r: Result<OpenAiCompatibleClient>) -> bool {
    if is_blank_spec(config.default_model@) {
        is_config_error(r, empty_model_message())
    } else {
        match parsed_url(normalized_base(config.base_url@)) {
            Err(e) => is_config_error(r, invalid_url_message(e)),
            Ok(p) => if !is_acceptable_base(p) {
                is_config_error(r, unacceptable_url_message())
            } else {
                match joined_url(p.href, endpoint_path()) {
                    Err(e) => is_config_error(r, endpoint_error_message(e)),
                    Ok(endpoint) => r matches Ok(c) && c@ == (ClientView {
                        endpoint,
                        api_key: config.api_key,
                        default_model: config.default_model@,
                        timeout: config.timeout,
                    }),
                }
            },
        }
    }
}

fn is_acceptable(p: &UrlParts) -> (b: bool)
    ensures
        b == is_acceptable_base(p@),
{
    let http = str_eq(p.scheme.as_str(), "http");
    let https = str_eq(p.scheme.as_str(), "https");
    (http || https) && p.host.is_some() && p.username.as_str().unicode_len() == 0
        && p.password.is_none() && p.query.is_none() && p.fragment.is_none()
}

/// The outcome of checking a parsed base URL: parse errors and unacceptable URLs
/// become configuration errors, an acceptable URL passes.
pub open spec fn base_check_spec(
    parsed: core::result::Result<UrlParts, String>,
    r: Result<UrlParts>,
) -> bool {
    match parsed {
        Err(e) => is_config_error(r, invalid_url_message(e@)),
        Ok(p) => if is_acceptable_base(p@) {
            r == Ok::<UrlParts, LlmError>(p)
        } else {
            is_config_error(r, unacceptable_url_message())
        },
    }
}

/// Checks the outcome of parsing the base URL.
pub fn check_base_url(parsed: core::result::Result<UrlParts, String>) -> (r: Result<UrlParts>)
    ensures
        base_check_spec(parsed, r),
{
    match parsed {
        Err(e) => {
            let mut message = String::from_str("LLM_BASE_URL 不是有效 URL：");
            message.append(e.as_str());
            Err(LlmError::Config(message))
        },
        Ok(p) => if is_acceptable(&p) {
            Ok(p)
        } else {
            Err(
                LlmError::Config(
                    String::from_str("LLM_BASE_URL 必须是无凭据、查询参数和片段的 HTTP(S) 地址"),
                ),
            )
        },
    }
}

/// Checks the outcome of resolving the endpoint against the base URL.
pub fn check_endpoint(joined: core::result::Result<String, String>) -> (r: Result<String>)
    ensures
        match joined {
            Ok(u) => r == Ok::<String, LlmError>(u),
            Err(e) => is_config_error(r, endpoint_error_message(e@)),
        },
{
    match joined {
        Ok(u) => Ok(u),
        Err(e) => {
            let mut message = String::from_str("无法生成接口地址：");
            message.append(e.as_str());
            Err(LlmError::Config(message))
        },
    }
}

impl OpenAiCompatibleClient {
    /// Validates `config`: the model name must not be blank, and the base URL (with
    /// its trailing slashes replaced by one) must be an HTTP(S) URL with a host and
    /// without credentials, query or fragment. The endpoint is `chat/completions`
    /// resolved against it.
    pub fn new(config: LlmConfig) -> (r: Result<Self>)
        ensures
            new_client_spec(config, r),
    {
        if is_blank(config.default_model.as_str()) {
            return Err(LlmError::Config(String::from_str("模型名称不能为空")));
        }
        let mut base = String::from_str(strip_trailing(config.base_url.as_str(), '/'));
        base.append("/");
        proof {
            reveal_strlit("/");
            assert(base@ =~= normalized_base(config.base_url@));
        }
        let parts = check_base_url(parse_url(base.as_str()))?;
        let endpoint = check_endpoint(join_url(parts.href.as_str(), "chat/completions"))?;
        Ok(OpenAiCompatibleClient {
            endpoint,
            api_key: config.api_key,
            default_model: config.default_model,
            timeout: config.timeout,
        })
    }

    /// The model that requests name unless told otherwise.
    pub fn default_model(&self) -> (m: &str)
        ensures
            m@ == self@.default_model,
    {
        self.default_model.as_str()
    }

    /// The URL that requests are posted to.
    pub fn endpoint(&self) -> (e: &str)
        ensures
            e@ == self@.endpoint,
    {
        self.endpoint.as_str()
    }

    /// The bearer token sent with each request, if any.
    pub fn api_key(&self) -> (k: &Option<String>)
        ensures
            *k == self@.api_key,
    {
        &self.api_key
    }

    /// How long a request may take.
    pub fn timeout(&self) -> (t: Duration)
        ensures
            t == self@.timeout,
    {
        self.timeout
    }

    /// A request for the default model over `messages`, every option unset.
    pub fn request(&self, messages: Vec<Message>) -> (r: ChatRequest)
        ensures
            is_plain_request(r, self@.default_model, messages@),
    {
        ChatRequest::new(self.default_model.as_str(), messages)
    }
}

/// A status in 200..=299, as `StatusCode::is_success` tests.
pub open spec fn is_success_code(status: u16) -> bool {
    200 <= status && status <= 299
}

/// Whether an HTTP status reports success.
pub fn is_success_status(status: u16) -> (b: bool)
    ensures
        b == is_success_code(status),
{
    200 <= status && status <= 299
}

/// The error object of an error reply: `{"error": {"message": ...}}`.
#[derive(Debug)]
pub struct ApiErrorEnvelope {
    pub error: ApiErrorBody,
}

/// The inside of an error object.
#[derive(Debug)]
pub struct ApiErrorBody {
    pub message: String,
}

/// The message of an error reply, unless it is blank or the reply was not an error object.
pub open spec fn api_message_spec(envelope: Option<ApiErrorEnvelope>) -> Option<String> {
    match envelope {
        Some(e) => if is_blank_spec(e.error.message@) {
            None
        } else {
            Some(e.error.message)
        },
        None => None,
    }
}

/// The message of an error reply (`None` when the body was not an error object), kept
/// unless blank.
pub fn parse_api_message(envelope: Option<ApiErrorEnvelope>) -> (m: Option<String>)
    ensures
        m == api_message_spec(envelope),
{
    match envelope {
        Some(e) => if is_blank(e.error.message.as_str()) {
            None
        } else {
            Some(e.error.message)
        },
        None => None,
    }
}

/// The text given for a failed request: the service's own message, else the standard
/// reason phrase of the status, else a generic one.
pub open spec fn api_error_text(status: u16, envelope: Option<ApiErrorEnvelope>) -> Seq<char> {
    match api_message_spec(envelope) {
        Some(m) => m@,
        None => match status_reason(status) {
            Some(r) => r,
            None => "未知接口错误"@,
        },
    }
}

/// The error for a reply with a status outside 200..=299, body `body` (parsed as an
/// error object into `envelope` when it is one), and standard reason phrase `reason`.
pub fn api_error_with_reason(
    status: u16,
    envelope: Option<ApiErrorEnvelope>,
    body: String,
    reason: Option<String>,
) -> (e: LlmError)
    ensures
        e matches LlmError::Api { status: s, message, body: b } && s == status && b == body
            && message@ == (match api_message_spec(envelope) {
            Some(m) => m@,
            None => match reason {
                Some(r) => r@,
                None => "未知接口错误"@,
            },
        }),
{
    let message = match parse_api_message(envelope) {
        Some(m) => m,
        None => match reason {
            Some(r) => r,
            None => String::from_str("未知接口错误"),
        },
    };
    LlmError::Api { status, message, body }
}

/// The error for a reply with a status outside 200..=299 and body `body`, parsed as
/// an error object into `envelope` when it is one.
pub fn api_error(status: u16, envelope: Option<ApiErrorEnvelope>, body: String) -> (e: LlmError)
    ensures
        e matches LlmError::Api { status: s, message, body: b } && s == status && b == body
            && message@ == api_error_text(status, envelope),
{
    api_error_with_reason(status, envelope, body, canonical_reason(status))
}

/// What to do with one server-sent event of a streamed reply.
#[derive(Debug, PartialEq, Eq, Structural)]
pub enum StreamEvent {
    /// The stream is complete.
    Done,
    /// A keep-alive without data.
    Skip,
    /// A chunk to decode.
    Chunk,
}

/// How the data of a server-sent event is handled: `[DONE]` ends the stream, blank
/// data is skipped, anything else is a chunk (white space around it ignored).
pub open spec fn stream_event_spec(data: Seq<char>) -> StreamEvent {
    if trim_spec(data) == "[DONE]"@ {
        StreamEvent::Done
    } else if trim_spec(data).len() == 0 {
        StreamEvent::Skip
    } else {
        StreamEvent::Chunk
    }
}

/// White space around the data of an event never changes how it is handled.
pub proof fn lemma_event_ignores_surrounding_space(w1: Seq<char>, data: Seq<char>, w2: Seq<char>)
    requires
        all_white_space(w1),
        all_white_space(w2),
    ensures
        stream_event_spec(w1 + data + w2) == stream_event_spec(data),
{
    lemma_trim_ignores_surrounding_space(w1, data, w2);
}

/// Classifies the data of a server-sent event.
pub fn classify_event(data: &str) -> (k: StreamEvent)
    ensures
        k == stream_event_spec(data@),
{
    let t = trim(data);
    if str_eq(t, "[DONE]") {
        StreamEvent::Done
    } else if t.unicode_len() == 0 {
        StreamEvent::Skip
    } else {
        StreamEvent::Chunk
    }
}

/// What a streamed reply does with one item of its event source.
#[derive(Debug)]
pub enum StreamStep {
    /// End the stream.
    Finish,
    /// Go on with the next event.
    Skip,
    /// Decode the event's data as a chunk, hand out the outcome (a chunk or a decoding
    /// error), and go on with the next event.
    Decode,
    /// Hand out this error and end the stream.
    Fail(LlmError),
}

/// The step taken for one item of the event source: `Ok` holds an event's data,
/// `Err` the text of the error that broke the source.
pub open spec fn stream_step_spec(event: core::result::Result<Seq<char>, Seq<char>>, k: StreamStep) -> bool {
    match event {
        Ok(data) => match stream_event_spec(data) {
            StreamEvent::Done => k matches StreamStep::Finish,
            StreamEvent::Skip => k matches StreamStep::Skip,
            StreamEvent::Chunk => k matches StreamStep::Decode,
        },
        Err(e) => k matches StreamStep::Fail(LlmError::Stream(m)) && m@ == e,
    }
}

/// Decides what a streamed reply does with one item of its event source.
pub fn stream_step(event: core::result::Result<&str, String>) -> (k: StreamStep)
    ensures
        stream_step_spec(
            match event {
                Ok(d) => Ok::<Seq<char>, Seq<char>>(d@),
                Err(e) => Err::<Seq<char>, Seq<char>>(e@),
            },
            k,
        ),
{
    match event {
        Ok(data) => match classify_event(data) {
            StreamEvent::Done => StreamStep::Finish,
            StreamEvent::Skip => StreamStep::Skip,
            StreamEvent::Chunk => StreamStep::Decode,
        },
        Err(e) => StreamStep::Fail(LlmError::Stream(e)),
    }
}

/// What a streamed reply hands out for an event whose data `data` was decoded into
/// `parsed`: the chunk, or a decoding error that keeps the data.
pub fn decoded_chunk(parsed: core::result::Result<ChatChunk, serde_json::Error>, data: String) -> (r:
    Result<ChatChunk>)
    ensures
        match parsed {
            Ok(c) => r == Ok::<ChatChunk, LlmError>(c),
            Err(source) => r matches Err(LlmError::Decode { source: s, body }) && s == source && body
                == data,
        },
{
    match parsed {
        Ok(c) => Ok(c),
        Err(source) => Err(LlmError::Decode { source, body: data }),
    }
}

} // verus!
