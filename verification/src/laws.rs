//! What the library's main operations are for, stated over their inputs and results
//! in plain terms, and proved from the contracts of the operations.

use vstd::prelude::*;
use crate::agent::{outcome_spec, system_prompt, user_input_spec, Outcome, UserInput};
use crate::client::{
    api_error_text,
    empty_model_message,
    endpoint_error_message,
    invalid_url_message,
    unacceptable_url_message,
    base_check_spec,
    is_success_code,
    new_client_spec,
    stream_event_spec,
    stream_step_spec,
    ApiErrorEnvelope,
    OpenAiCompatibleClient,
    StreamEvent,
    StreamStep,
};
use crate::error::LlmError;
use crate::error::Result;
use crate::foreign::{joined_url, lowercase, parsed_url, status_reason, UrlParts};
use crate::text::{
    all_white_space,
    contains_spec,
    is_white_space,
    occurs_at,
    trim_start_spec,
    digits_value,
    lemma_digits_value_nonneg,
    is_blank_spec,
    is_digit,
    parse_u64_spec,
    strip_trailing_spec,
    trim_end_spec,
    trim_spec,
    unsigned_digits,
};
use crate::tools::{
    denied_pattern,
    is_power_shell_invocation,
    is_pwsh_invocation,
    is_shell_tool,
    policy_decision_spec,
    utf8_len,
    power_shell_tool_description,
    shell_tool_description,
    truncate_spec,
    PolicyDecision,
    ShellInvocation,
    ToolDefinition,
    ToolType,
    MAX_COMMAND_BYTES,
    MAX_OUTPUT_CHARS,
    RUN_SHELL_TIMEOUT_SECS,
};
use crate::types::{
    is_plain_request,
    is_present,
    is_text_message,
    is_tool_message,
    missing_variable_message,
    present_or_none,
    timeout_not_number_message,
    timeout_zero_message,
    ChatRequest,
    LlmConfig,
    Message,
    Role,
    DEFAULT_TIMEOUT_SECS,
};

verus! {

/// The commands the shell policy refuses, in the order they are looked for.
pub open spec fn refused_commands() -> Seq<Seq<char>> {
    seq![
        "invoke-expression"@,
        "iex "@,
        "-encodedcommand"@,
        "set-executionpolicy"@,
        "add-mppreference"@,
        "clear-disk"@,
        "format-volume"@,
        "remove-partition"@,
    ]
}

/// `check_power_shell`: a command is allowed exactly when its trimmed, lower-cased
/// form contains none of the refused commands; otherwise it is denied, the reason
/// naming the first refused command (in list order) that it contains.
pub proof fn law_shell_policy(command: Seq<char>, d: PolicyDecision)
    requires
        policy_decision_spec(command, d),
    ensures
        d is Allow <==> (forall|i: int|
            0 <= i < 8 ==> !contains_spec(lowercase(trim_spec(command)), #[trigger] refused_commands()[i])),
        d matches PolicyDecision::Deny { reason } ==> exists|i: int|
            0 <= i < 8 && contains_spec(lowercase(trim_spec(command)), #[trigger] refused_commands()[i])
                && (forall|j: int|
                0 <= j < i ==> !contains_spec(lowercase(trim_spec(command)), #[trigger] refused_commands()[j]))
                && reason@ == "command contains denied pattern: "@ + refused_commands()[i],
        !(d is RequestApproval),
{
    let cmd = lowercase(trim_spec(command));
    let p = refused_commands();
    assert forall|i: int| 0 <= i < 8 implies #[trigger] p[i] == denied_pattern(i) by {
        if i == 0 {
        } else if i == 1 {
        } else if i == 2 {
        } else if i == 3 {
        } else if i == 4 {
        } else if i == 5 {
        } else if i == 6 {
        } else {
        }
    }
    match d {
        PolicyDecision::Allow => {
            assert forall|i: int| 0 <= i < 8 implies !contains_spec(cmd, #[trigger] p[i]) by {
                assert(p[i] == denied_pattern(i));
            }
        },
        PolicyDecision::Deny { reason } => {
            let i = choose|i: int|
                0 <= i < 8 && contains_spec(cmd, #[trigger] denied_pattern(i)) && (forall|j: int|
                    0 <= j < i ==> !contains_spec(cmd, #[trigger] denied_pattern(j)))
                    && reason@ == "command contains denied pattern: "@ + denied_pattern(i);
            assert(p[i] == denied_pattern(i));
            assert forall|j: int| 0 <= j < i implies !contains_spec(cmd, #[trigger] p[j]) by {
                assert(p[j] == denied_pattern(j));
            }
            assert(contains_spec(cmd, p[i]));
            assert(!(forall|k: int| 0 <= k < 8 ==> !contains_spec(cmd, #[trigger] p[k])));
        },
        PolicyDecision::RequestApproval { .. } => {},
    }
}

/// `OpenAiCompatibleClient::new`: a client is made only from a configuration whose
/// model is not blank and whose base URL (trailing slashes replaced by one) parses as
/// an `http` or `https` URL with a host and without user, password, query or
/// fragment; it posts to `chat/completions` resolved against that URL, and keeps the
/// configuration's API key, model and timeout.
pub proof fn law_new_client(config: LlmConfig, r: Result<OpenAiCompatibleClient>)
    requires
        new_client_spec(config, r),
    ensures
        r matches Ok(c) ==> {
            &&& !is_blank_spec(config.default_model@)
            &&& parsed_url(strip_trailing_spec(config.base_url@, '/').push('/')) matches Ok(p) && {
                &&& (p.scheme == "http"@ || p.scheme == "https"@)
                &&& p.host is Some
                &&& p.username.len() == 0
                &&& p.password is None
                &&& p.query is None
                &&& p.fragment is None
                &&& joined_url(p.href, "chat/completions"@) == Ok::<Seq<char>, Seq<char>>(
                    c@.endpoint,
                )
            }
            &&& c@.api_key == config.api_key
            &&& c@.default_model == config.default_model@
            &&& c@.timeout == config.timeout
        },
        is_blank_spec(config.default_model@) ==> r is Err,
{
}

/// `is_success_status`: a status reports success exactly when it lies in 200..=299.
pub proof fn law_success_status(status: u16, b: bool)
    requires
        b == is_success_code(status),
    ensures
        b <==> (200 <= status && status <= 299),
{
}

/// `classify_event`: only the `[DONE]` marker (white space around it ignored) ends a
/// stream, only blank data is skipped, and everything else is a chunk.
pub proof fn law_stream_event(data: Seq<char>, k: StreamEvent)
    requires
        k == stream_event_spec(data),
    ensures
        k == StreamEvent::Done <==> trim_spec(data) == "[DONE]"@,
        k == StreamEvent::Skip <==> trim_spec(data).len() == 0,
        k == StreamEvent::Chunk <==> (trim_spec(data) != "[DONE]"@ && trim_spec(data).len() != 0),
{
    reveal_strlit("[DONE]");
}

/// `read_input`: only the line `exit` (trailing white space ignored) leaves; every
/// other line is a question, stripped of trailing white space.
pub proof fn law_user_input(line: Seq<char>, u: UserInput)
    requires
        user_input_spec(line, u),
    ensures
        u == UserInput::Exit <==> trim_end_spec(line) == "exit"@,
        u != UserInput::Exit ==> (u matches UserInput::Ask(q) && q@ == trim_end_spec(line)),
{
}

/// `stream_step`: an event whose trimmed data is `[DONE]` ends the stream, blank data
/// is skipped, other data is decoded, and a broken source fails with a stream error
/// carrying the source's error text.
pub proof fn law_stream_step(event: core::result::Result<Seq<char>, Seq<char>>, k: StreamStep)
    requires
        stream_step_spec(event, k),
    ensures
        event matches Ok(d) ==> ((k is Finish <==> trim_spec(d) == "[DONE]"@) && (k is Skip
            <==> trim_spec(d).len() == 0) && (k is Decode <==> (trim_spec(d) != "[DONE]"@
            && trim_spec(d).len() != 0))),
        event matches Err(e) ==> (k matches StreamStep::Fail(LlmError::Stream(m)) && m@ == e),
{
    reveal_strlit("[DONE]");
}

/// `on_reply`: tool calls take precedence; without them the finish reason `stop`
/// finishes with the message's text (empty when there is none), any other reason is
/// reported as unfinished, and a missing reason is reported as such.
pub proof fn law_reply_outcome(c: crate::types::Choice, o: Outcome)
    requires
        outcome_spec(c, o),
    ensures
        o is RunTools <==> c.message.tool_calls@.len() > 0,
        o matches Outcome::RunTools(calls) ==> calls@ == c.message.tool_calls@,
        o is Finished <==> (c.message.tool_calls@.len() == 0 && (c.finish_reason matches Some(f)
            && f@ == "stop"@)),
        o matches Outcome::Finished(t) ==> (c.message.content matches Some(s) ==> t@ == s@) && (
        c.message.content is None ==> t@.len() == 0),
        o is NoFinishReason <==> (c.message.tool_calls@.len() == 0 && c.finish_reason is None),
        o matches Outcome::Unfinished(g) ==> (c.message.tool_calls@.len() == 0 && (
        c.finish_reason matches Some(f) && f@ == g@ && g@ != "stop"@)),
{
}

/// The conversation's opening instruction.
pub proof fn law_system_prompt()
    ensures
        system_prompt() == "你是本地agent助手，做危险的操作时，需要获取用户的授权"@,
{
}

/// Text messages carry exactly their role and text; tool messages answer their call
/// with the `tool` role.
pub proof fn law_messages(m: Message, role: Role, id: Seq<char>, content: Seq<char>)
    ensures
        is_text_message(m, role, content) ==> {
            &&& m.role == role
            &&& m.content matches Some(s) && s@ == content
            &&& m.name is None && m.tool_call_id is None
            &&& m.tool_calls@.len() == 0
            &&& m.extra@.dom().len() == 0
        },
        is_tool_message(m, id, content) ==> {
            &&& m.role == Role::Tool
            &&& m.content matches Some(s) && s@ == content
            &&& m.tool_call_id matches Some(t) && t@ == id
            &&& m.name is None
            &&& m.tool_calls@.len() == 0
        },
{
}

/// A new request names its model and messages, does not stream, and sets no option.
pub proof fn law_plain_request(r: ChatRequest, model: Seq<char>, messages: Seq<Message>)
    requires
        is_plain_request(r, model, messages),
    ensures
        r.model@ == model,
        r.messages@ == messages,
        r.stream == false,
        r.temperature_bits is None && r.max_completion_tokens is None,
        r.tools@.len() == 0 && r.tool_choice is None && r.response_format is None,
        r.extra@.dom().len() == 0,
{
}

/// Configuration from the environment: a value counts when it is set and not blank,
/// the API key is dropped when blank, the default timeout is sixty seconds, and the
/// errors read as follows.
pub proof fn law_config_terms(v: Option<String>, name: Seq<char>)
    ensures
        is_present(v) <==> (v matches Some(s) && !is_blank_spec(s@)),
        present_or_none(v) == (if v matches Some(s) && !is_blank_spec(s@) {
            v
        } else {
            None::<String>
        }),
        DEFAULT_TIMEOUT_SECS == 60,
        missing_variable_message(name) == "缺少环境变量 "@ + name,
        timeout_not_number_message() == "LLM_TIMEOUT_SECONDS 必须是正整数"@,
        timeout_zero_message() == "LLM_TIMEOUT_SECONDS 必须大于 0"@,
{
}

/// A parsed base URL passes exactly when it is `http` or `https`, has a host, and has
/// no user, password, query or fragment; it then passes unchanged.
pub proof fn law_base_check(parsed: core::result::Result<UrlParts, String>, r: Result<UrlParts>)
    requires
        base_check_spec(parsed, r),
    ensures
        r matches Ok(p) ==> {
            &&& parsed == Ok::<UrlParts, String>(p)
            &&& (p.scheme@ == "http"@ || p.scheme@ == "https"@)
            &&& p.host is Some
            &&& p.username@.len() == 0
            &&& p.password is None && p.query is None && p.fragment is None
        },
        parsed matches Ok(p) && (p.scheme@ == "http"@ || p.scheme@ == "https"@) && p.host is Some
            && p.username@.len() == 0 && p.password is None && p.query is None && p.fragment
            is None ==> r is Ok,
        parsed matches Err(e) ==> (r matches Err(LlmError::Config(m)) && m@
            == "LLM_BASE_URL 不是有效 URL："@ + e@),
{
}

/// The text of an API error: the service's message unless absent or blank, else the
/// status's standard reason phrase, else a generic message.
pub proof fn law_api_error_text(status: u16, envelope: Option<ApiErrorEnvelope>)
    ensures
        api_error_text(status, envelope) == (if envelope matches Some(e) && !is_blank_spec(
            e.error.message@,
        ) {
            envelope.unwrap().error.message@
        } else if status_reason(status) matches Some(r) {
            status_reason(status).unwrap()
        } else {
            "未知接口错误"@
        }),
{
}

/// Truncation keeps the first `max_chars` characters, or all of a shorter text.
pub proof fn law_truncate(text: Seq<char>, max_chars: nat)
    ensures
        truncate_spec(text, max_chars) == text.subrange(
            0,
            if max_chars < text.len() {
                max_chars as int
            } else {
                text.len() as int
            },
        ),
        MAX_OUTPUT_CHARS == 16000,
{
    if max_chars >= text.len() {
        assert(text.subrange(0, text.len() as int) =~= text);
    }
}

/// A planned shell command runs `pwsh.exe -NoProfile -NonInteractive -Command
/// <command>` with a limit of forty seconds (thirty for `run_shell`); commands of more
/// than 4096 UTF-8 bytes are refused.
pub proof fn law_shell_invocation(inv: ShellInvocation, command: Seq<char>, secs: u64)
    ensures
        is_pwsh_invocation(inv, command, secs) <==> {
            &&& inv.program@ == "pwsh.exe"@
            &&& inv.args@.len() == 4
            &&& inv.args@[0]@ == "-NoProfile"@
            &&& inv.args@[1]@ == "-NonInteractive"@
            &&& inv.args@[2]@ == "-Command"@
            &&& inv.args@[3]@ == command
            &&& inv.timeout_secs == secs
        },
        is_power_shell_invocation(inv, command) <==> is_pwsh_invocation(inv, command, 40),
        RUN_SHELL_TIMEOUT_SECS == 30,
        MAX_COMMAND_BYTES == 4096,
        utf8_len(command) == vstd::utf8::encode_utf8(command).len() as usize,
{
}

/// The shell tool is the strict function `run_shell` with one required string
/// property `command` described as "要执行的命令", and nothing else allowed.
pub proof fn law_shell_tool(t: ToolDefinition, description: Seq<char>)
    ensures
        is_shell_tool(t, description) ==> {
            &&& t.tool_type == ToolType::Function
            &&& t.function.name@ == "run_shell"@
            &&& t.function.description@ == description
            &&& t.function.strict
            &&& t.function.parameters.properties@.len() == 1
            &&& t.function.parameters.properties@[0].name@ == "command"@
            &&& t.function.parameters.properties@[0].description@ == "要执行的命令"@
            &&& t.function.parameters.required@.len() == 1
            &&& t.function.parameters.required@[0]@ == "command"@
            &&& !t.function.parameters.additional_properties
        },
        shell_tool_description() == "在受限的本地工作目录执行 PowerShell"@,
        power_shell_tool_description() == "在受限的本地工作目录执行 PowerShell "@,
{
}

/// The messages a configuration is refused with.
pub proof fn law_client_messages(e: Seq<char>)
    ensures
        empty_model_message() == "模型名称不能为空"@,
        invalid_url_message(e) == "LLM_BASE_URL 不是有效 URL："@ + e,
        unacceptable_url_message() == "LLM_BASE_URL 必须是无凭据、查询参数和片段的 HTTP(S) 地址"@,
        endpoint_error_message(e) == "无法生成接口地址："@ + e,
{
}

/// Number parsing: a number is an optional `+` followed by decimal digits; a single
/// character parses exactly when it is a digit, to that digit's value; and appending a
/// digit to a number multiplies it by ten and adds the digit, while it fits in 64 bits.
pub proof fn law_parse_u64(s: Seq<char>, c: char)
    ensures
        parse_u64_spec(s) is Some ==> s.len() > 0 && (forall|i: int|
            0 <= i < s.len() ==> is_digit(#[trigger] s[i]) || (i == 0 && s[0] == '+' && s.len()
                > 1)),
        parse_u64_spec(seq![c]) == (if '0' <= c && c <= '9' {
            Some((c as int - '0' as int) as u64)
        } else {
            None::<u64>
        }),
        parse_u64_spec(s) matches Some(v) ==> ('0' <= c && c <= '9' && v * 10 + (c as int
            - '0' as int) <= u64::MAX ==> parse_u64_spec(s.push(c)) == Some(
            (v * 10 + (c as int - '0' as int)) as u64,
        )),
{
    let one = seq![c];
    assert(unsigned_digits(one) == one);
    assert(one.drop_last() =~= Seq::<char>::empty());
    assert(one[0] == c);
    assert(one.last() == c);
    assert(digits_value(Seq::<char>::empty()) == 0);
    assert(digits_value(one) == c as int - '0' as int);
    if let Some(v) = parse_u64_spec(s) {
        let d = unsigned_digits(s);
        lemma_digits_value_nonneg(d);
        assert(v == digits_value(d));
        assert forall|i: int| 0 <= i < s.len() implies is_digit(#[trigger] s[i]) || (i == 0 && s[0]
            == '+' && s.len() > 1) by {
            if s.len() > 1 && s[0] == '+' {
                if i > 0 {
                    assert(s[i] == d[i - 1]);
                }
            } else {
                assert(s[i] == d[i]);
            }
        }
        if '0' <= c && c <= '9' {
            let t = s.push(c);
            let e = unsigned_digits(t);
            assert(e =~= d.push(c));
            assert(e.drop_last() =~= d);
            assert forall|i: int| 0 <= i < e.len() implies is_digit(#[trigger] e[i]) by {
                if i < d.len() {
                    assert(e[i] == d[i]);
                }
            }
            assert(e.last() == c);
            assert(digits_value(e) == digits_value(d) * 10 + (c as int - '0' as int));
        }
    }
}

/// Substring search: a string contains every piece it is made of, and whatever it
/// contains is one of its pieces.
pub proof fn law_contains(a: Seq<char>, n: Seq<char>, b: Seq<char>, h: Seq<char>)
    ensures
        contains_spec(a + n + b, n),
        contains_spec(h, n) ==> exists|i: int|
            0 <= i && i + n.len() <= h.len() && h == #[trigger] h.take(i) + n + h.skip(i + n.len()),
{
    let s = a + n + b;
    assert(s.subrange(a.len() as int, (a.len() + n.len()) as int) =~= n);
    assert(occurs_at(s, n, a.len() as int));
    if contains_spec(h, n) {
        let i = choose|i: int| occurs_at(h, n, i);
        assert(h =~= h.take(i) + n + h.skip(i + n.len()));
    }
}

proof fn lemma_trim_start_shape(s: Seq<char>)
    ensures
        s.len() >= trim_start_spec(s).len(),
        s == s.take(s.len() - trim_start_spec(s).len()) + trim_start_spec(s),
        all_white_space(s.take(s.len() - trim_start_spec(s).len())),
        trim_start_spec(s).len() == 0 || !is_white_space(trim_start_spec(s)[0]),
    decreases s.len(),
{
    if s.len() > 0 && is_white_space(s[0]) {
        let t = s.drop_first();
        lemma_trim_start_shape(t);
        let k = t.len() - trim_start_spec(t).len();
        let ts = trim_start_spec(t);
        assert forall|i: int| 0 <= i < ts.len() implies s[k + 1 + i] == #[trigger] ts[i] by {
            assert((t.take(k) + ts)[k + i] == ts[i]);
            assert(s[k + 1 + i] == t[k + i]);
        }
        assert(s =~= s.take(k + 1) + trim_start_spec(t));
        assert forall|i: int| 0 <= i < k + 1 implies is_white_space(#[trigger] s.take(k + 1)[i]) by {
            if i > 0 {
                assert(s.take(k + 1)[i] == t.take(k)[i - 1]);
            }
        }
    } else {
        assert(s =~= s.take(0) + s);
    }
}

proof fn lemma_trim_end_shape(s: Seq<char>)
    ensures
        s.len() >= trim_end_spec(s).len(),
        s == trim_end_spec(s) + s.skip(trim_end_spec(s).len() as int),
        all_white_space(s.skip(trim_end_spec(s).len() as int)),
        trim_end_spec(s).len() == 0 || !is_white_space(trim_end_spec(s).last()),
    decreases s.len(),
{
    if s.len() > 0 && is_white_space(s.last()) {
        let t = s.drop_last();
        lemma_trim_end_shape(t);
        let k = trim_end_spec(t).len() as int;
        let te = trim_end_spec(t);
        assert forall|i: int| 0 <= i < k implies s[i] == #[trigger] te[i] by {
            assert((te + t.skip(k))[i] == te[i]);
            assert(s[i] == t[i]);
        }
        assert(s =~= trim_end_spec(t) + s.skip(k));
        assert forall|i: int| 0 <= i < s.len() - k implies is_white_space(#[trigger] s.skip(k)[i]) by {
            if k + i < t.len() {
                assert(s.skip(k)[i] == t.skip(k)[i]);
            }
        }
    } else {
        assert(s =~= s + s.skip(s.len() as int));
    }
}

/// The part of `s` from `k` on that `r` occupies is surrounded by white space only.
pub open spec fn surrounded_by_white_space(s: Seq<char>, r: Seq<char>, k: int) -> bool {
    &&& 0 <= k && k + r.len() <= s.len()
    &&& s.subrange(k, k + r.len()) == r
    &&& all_white_space(s.take(k))
    &&& all_white_space(s.skip(k + r.len()))
}

/// Trimming removes exactly the white space at both ends: the input is white space,
/// then the result, then white space, and the result neither starts nor ends with
/// white space; trimming the end alone leaves the input's start in place.
pub proof fn law_trim(s: Seq<char>)
    ensures
        exists|k: int| #[trigger] surrounded_by_white_space(s, trim_spec(s), k),
        trim_spec(s).len() == 0 || (!is_white_space(trim_spec(s)[0]) && !is_white_space(
            trim_spec(s).last(),
        )),
        surrounded_by_white_space(s, trim_end_spec(s), 0),
        trim_end_spec(s).len() == 0 || !is_white_space(trim_end_spec(s).last()),
{
    lemma_trim_start_shape(s);
    let t = trim_start_spec(s);
    lemma_trim_end_shape(t);
    let r = trim_end_spec(t);
    let k = s.len() - t.len();
    let w1 = s.take(k);
    let w2 = t.skip(r.len() as int);
    assert(s =~= w1 + r + w2);
    assert(s.subrange(k, k + r.len()) =~= r);
    assert(s.take(k) =~= w1);
    assert(s.skip(k + r.len()) =~= w2);
    assert(surrounded_by_white_space(s, r, k));
    assert(r == trim_spec(s));
    assert(surrounded_by_white_space(s, trim_spec(s), k));
    if r.len() > 0 {
        assert(r[0] == t[0]);
    }
    lemma_trim_end_shape(s);
    let e = trim_end_spec(s);
    assert(s.subrange(0, e.len() as int) =~= e);
    assert(s.take(0) =~= Seq::<char>::empty());
}

/// Stripping a trailing character removes exactly the run of it at the end.
pub proof fn law_strip_trailing(s: Seq<char>, c: char)
    ensures
        strip_trailing_spec(s, c).len() <= s.len(),
        s.take(strip_trailing_spec(s, c).len() as int) == strip_trailing_spec(s, c),
        forall|i: int| strip_trailing_spec(s, c).len() <= i < s.len() ==> #[trigger] s[i] == c,
        strip_trailing_spec(s, c).len() == 0 || strip_trailing_spec(s, c).last() != c,
    decreases s.len(),
{
    if s.len() > 0 && s.last() == c {
        let t = s.drop_last();
        law_strip_trailing(t, c);
        let r = strip_trailing_spec(t, c);
        assert(t.take(r.len() as int) =~= s.take(r.len() as int));
        assert forall|i: int| r.len() <= i < s.len() implies #[trigger] s[i] == c by {
            if i < t.len() {
                assert(s[i] == t[i]);
            }
        }
    } else {
        assert(s.take(s.len() as int) =~= s);
    }
}

} // verus!
