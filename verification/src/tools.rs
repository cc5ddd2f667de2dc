//! The shell tool that the agent offers to the model: its definition, the policy
//! check on commands, and the pure steps around running a command.

use vstd::prelude::*;
use crate::foreign::{from_utf8_lossy, lowercase, to_lowercase, utf8_lossy};
use crate::text::{
    all_white_space,
    contains,
    contains_spec,
    lemma_trim_ignores_surrounding_space,
    trim,
    trim_spec,
};

verus! {

/// Arguments the model passes to the shell tool.
#[derive(Debug)]
pub struct ShellArgs {
    pub command: String,
}

/// The kind of a tool offered to the model.
#[derive(Debug)]
pub enum ToolType {
    /// A function call.
    Function,
}

/// One tool offered to the model.
#[derive(Debug)]
pub struct ToolDefinition {
    pub tool_type: ToolType,
    pub function: FunctionDefinition,
}

/// The function behind a tool.
#[derive(Debug)]
pub struct FunctionDefinition {
    pub name: String,
    pub description: String,
    pub strict: bool,
    pub parameters: ParameterSchema,
}

/// The JSON schema of a function's parameters: an object with string properties.
#[derive(Debug)]
pub struct ParameterSchema {
    pub properties: Vec<PropertySchema>,
    pub required: Vec<String>,
    pub additional_properties: bool,
}

/// One string-typed property of a parameter object.
#[derive(Debug)]
pub struct PropertySchema {
    pub name: String,
    pub description: String,
}

/// What the policy decides about a command.
#[derive(Debug)]
pub enum PolicyDecision {
    Allow,
    RequestApproval { reason: String },
    Deny { reason: String },
}

/// Name of the shell tool.
pub open spec fn shell_tool_name() -> Seq<char> {
    "run_shell"@
}

/// Description of the shell tool that `load_tools` offers.
pub open spec fn shell_tool_description() -> Seq<char> {
    "在受限的本地工作目录执行 PowerShell"@
}

/// Description of the shell tool that `power_shell_tool` builds (it ends in a space).
pub open spec fn power_shell_tool_description() -> Seq<char> {
    "在受限的本地工作目录执行 PowerShell "@
}

/// Description of the shell tool's only parameter.
pub open spec fn command_description() -> Seq<char> {
    "要执行的命令"@
}

/// The strict `run_shell` function tool described as `description`, taking one
/// required string property `command` and nothing else.
pub open spec fn is_shell_tool(t: ToolDefinition, description: Seq<char>) -> bool {
    &&& t.tool_type == ToolType::Function
    &&& t.function.name@ == shell_tool_name()
    &&& t.function.description@ == description
    &&& t.function.strict
    &&& t.function.parameters.properties@.len() == 1
    &&& t.function.parameters.properties@[0].name@ == "command"@
    &&& t.function.parameters.properties@[0].description@ == command_description()
    &&& t.function.parameters.required@.len() == 1
    &&& t.function.parameters.required@[0]@ == "command"@
    &&& !t.function.parameters.additional_properties
}

/// The strict `run_shell` tool with the given description.
fn shell_tool_described(description: &str) -> (t: ToolDefinition)
    ensures
        is_shell_tool(t, description@),
{
    let property = PropertySchema {
        name: String::from_str("command"),
        description: String::from_str("要执行的命令"),
    };
    let mut properties: Vec<PropertySchema> = Vec::new();
    properties.push(property);
    let mut required: Vec<String> = Vec::new();
    required.push(String::from_str("command"));
    ToolDefinition {
        tool_type: ToolType::Function,
        function: FunctionDefinition {
            name: String::from_str("run_shell"),
            description: String::from_str(description),
            strict: true,
            parameters: ParameterSchema { properties, required, additional_properties: false },
        },
    }
}

/// The PowerShell tool as `load_tools` offers it.
pub fn shell_tool() -> (t: ToolDefinition)
    ensures
        is_shell_tool(t, shell_tool_description()),
{
    shell_tool_described("在受限的本地工作目录执行 PowerShell")
}

/// The PowerShell tool whose description ends in a space, as offered alongside
/// `run_shell`.
pub fn power_shell_tool() -> (t: ToolDefinition)
    ensures
        is_shell_tool(t, power_shell_tool_description()),
{
    shell_tool_described("在受限的本地工作目录执行 PowerShell ")
}

/// The tools offered to the model: the PowerShell tool alone.
pub fn load_tools() -> (tools: Vec<ToolDefinition>)
    ensures
        tools@.len() == 1,
        is_shell_tool(tools@[0], shell_tool_description()),
{
    let mut tools: Vec<ToolDefinition> = Vec::new();
    tools.push(shell_tool());
    tools
}

/// The tools offered alongside `run_shell`: the spaced PowerShell tool alone.
pub fn load_power_shell_tools() -> (tools: Vec<ToolDefinition>)
    ensures
        tools@.len() == 1,
        is_shell_tool(tools@[0], power_shell_tool_description()),
{
    let mut tools: Vec<ToolDefinition> = Vec::new();
    tools.push(power_shell_tool());
    tools
}

/// The first `max_chars` characters of `text` (all of it when it is shorter).
pub open spec fn truncate_spec(text: Seq<char>, max_chars: nat) -> Seq<char> {
    if max_chars < text.len() {
        text.take(max_chars as int)
    } else {
        text
    }
}

/// Truncation keeps a prefix of the text, exactly `max_chars` characters long unless
/// the text is shorter, and truncating again to the same length changes nothing.
pub proof fn lemma_truncate_prefix(text: Seq<char>, max_chars: nat)
    ensures
        truncate_spec(text, max_chars).len() == (if max_chars < text.len() {
            max_chars as int
        } else {
            text.len() as int
        }),
        truncate_spec(text, max_chars) == text.subrange(0, truncate_spec(text, max_chars).len() as int),
        truncate_spec(truncate_spec(text, max_chars), max_chars) == truncate_spec(text, max_chars),
{
    if max_chars >= text.len() {
        assert(text.subrange(0, text.len() as int) =~= text);
    }
}

/// The first `max_chars` characters of `text`.
pub fn truncate(text: &str, max_chars: usize) -> (r: String)
    ensures
        r@ == truncate_spec(text@, max_chars as nat),
{
    let n = text.unicode_len();
    let k = if max_chars < n {
        max_chars
    } else {
        n
    };
    let r = text.substring_char(0, k).to_owned();
    proof {
        if k == n {
            assert(text@.subrange(0, k as int) =~= text@);
        }
    }
    r
}

/// Number of denied command patterns.
pub open spec fn denied_count() -> int {
    8
}

/// The denied command patterns, in the order they are checked.
pub open spec fn denied_pattern(i: int) -> Seq<char> {
    if i == 0 {
        "invoke-expression"@
    } else if i == 1 {
        "iex "@
    } else if i == 2 {
        "-encodedcommand"@
    } else if i == 3 {
        "set-executionpolicy"@
    } else if i == 4 {
        "add-mppreference"@
    } else if i == 5 {
        "clear-disk"@
    } else if i == 6 {
        "format-volume"@
    } else {
        "remove-partition"@
    }
}

fn denied_pattern_at(i: usize) -> (p: &'static str)
    requires
        i < denied_count(),
    ensures
        p@ == denied_pattern(i as int),
{
    if i == 0 {
        "invoke-expression"
    } else if i == 1 {
        "iex "
    } else if i == 2 {
        "-encodedcommand"
    } else if i == 3 {
        "set-executionpolicy"
    } else if i == 4 {
        "add-mppreference"
    } else if i == 5 {
        "clear-disk"
    } else if i == 6 {
        "format-volume"
    } else {
        "remove-partition"
    }
}

/// The form of a command that the policy inspects: trimmed, then lower-cased.
pub open spec fn policy_form(command: Seq<char>) -> Seq<char> {
    lowercase(trim_spec(command))
}

/// Prefix of the reason given for a denied command.
pub open spec fn denied_reason_prefix() -> Seq<char> {
    "command contains denied pattern: "@
}

/// The policy's decision on `command`: `Deny` naming the first denied pattern that
/// occurs in its policy form, else `Allow`.
pub open spec fn policy_decision_spec(command: Seq<char>, d: PolicyDecision) -> bool {
    decision_on_form_spec(policy_form(command), d)
}

/// White space around a command never changes the policy's decision on it.
pub proof fn lemma_policy_ignores_surrounding_space(
    w1: Seq<char>,
    command: Seq<char>,
    w2: Seq<char>,
    d: PolicyDecision,
)
    requires
        all_white_space(w1),
        all_white_space(w2),
    ensures
        policy_decision_spec(w1 + command + w2, d) == policy_decision_spec(command, d),
{
    lemma_trim_ignores_surrounding_space(w1, command, w2);
}

/// The decision on a command already in policy form (trimmed and lower-cased):
/// `Deny` naming the first denied pattern that occurs in it, else `Allow`.
pub open spec fn decision_on_form_spec(cmd: Seq<char>, d: PolicyDecision) -> bool {
    match d {
        PolicyDecision::Allow => forall|i: int|
            0 <= i < denied_count() ==> !contains_spec(cmd, #[trigger] denied_pattern(i)),
        PolicyDecision::Deny { reason } => exists|i: int|
            0 <= i < denied_count() && contains_spec(cmd, #[trigger] denied_pattern(i)) && (
            forall|j: int| 0 <= j < i ==> !contains_spec(cmd, #[trigger] denied_pattern(j)))
                && reason@ == denied_reason_prefix() + denied_pattern(i),
        PolicyDecision::RequestApproval { .. } => false,
    }
}

/// Decides on a command already trimmed and lower-cased.
pub fn decide_on_policy_form(cmd: &str) -> (d: PolicyDecision)
    ensures
        decision_on_form_spec(cmd@, d),
{
    let mut i: usize = 0;
    while i < 8
        invariant
            i <= denied_count(),
            forall|j: int| 0 <= j < i ==> !contains_spec(cmd@, #[trigger] denied_pattern(j)),
        decreases 8 - i,
    {
        let pattern = denied_pattern_at(i);
        if contains(cmd, pattern) {
            let mut reason = String::from_str("command contains denied pattern: ");
            reason.append(pattern);
            return PolicyDecision::Deny { reason };
        }
        i = i + 1;
    }
    PolicyDecision::Allow
}

/// Checks a PowerShell command against the denied patterns.
pub fn check_power_shell(command: &str) -> (d: PolicyDecision)
    ensures
        policy_decision_spec(command@, d),
{
    let lower = to_lowercase(trim(command));
    decide_on_policy_form(lower.as_str())
}

/// Longest command accepted, in UTF-8 bytes.
pub const MAX_COMMAND_BYTES: usize = 4096;

/// Seconds a command may run before it is abandoned.
pub const SHELL_TIMEOUT_SECS: u64 = 40;

/// Characters of each output stream kept in a report.
pub const MAX_OUTPUT_CHARS: usize = 16000;

/// Seconds a command started through `plan_shell` may run.
pub const RUN_SHELL_TIMEOUT_SECS: u64 = 30;

/// Why a tool call was refused before it ran.
#[derive(Debug)]
pub enum ToolError {
    /// `plan_power_shell`: the command is longer than `MAX_COMMAND_BYTES` bytes.
    CommandTooLong,
    /// `plan_shell`: the command is longer than `MAX_COMMAND_BYTES` bytes.
    TooLong,
}

impl ToolError {
    /// The message reported to the model.
    pub fn message(&self) -> (m: String)
        ensures
            m@ == (match self {
                ToolError::CommandTooLong => "命令太长"@,
                ToolError::TooLong => "太长了"@,
            }),
    {
        match self {
            ToolError::CommandTooLong => String::from_str("命令太长"),
            ToolError::TooLong => String::from_str("太长了"),
        }
    }
}

/// A process to start: program, arguments and time limit.
#[derive(Debug)]
pub struct ShellInvocation {
    pub program: String,
    pub args: Vec<String>,
    pub timeout_secs: u64,
}

/// The PowerShell invocation that runs `command` non-interactively with a time
/// limit of `timeout_secs` seconds.
pub open spec fn is_pwsh_invocation(inv: ShellInvocation, command: Seq<char>, timeout_secs: u64) -> bool {
    &&& inv.program@ == "pwsh.exe"@
    &&& inv.args@.len() == 4
    &&& inv.args@[0]@ == "-NoProfile"@
    &&& inv.args@[1]@ == "-NonInteractive"@
    &&& inv.args@[2]@ == "-Command"@
    &&& inv.args@[3]@ == command
    &&& inv.timeout_secs == timeout_secs
}

/// The invocation that `plan_power_shell` makes of `command`.
pub open spec fn is_power_shell_invocation(inv: ShellInvocation, command: Seq<char>) -> bool {
    is_pwsh_invocation(inv, command, SHELL_TIMEOUT_SECS)
}

/// The length in UTF-8 bytes of a string held in memory (`str::len`).
pub open spec fn utf8_len(s: Seq<char>) -> usize {
    vstd::utf8::encode_utf8(s).len() as usize
}

/// `pwsh.exe -NoProfile -NonInteractive -Command <command>`, limited to `timeout_secs`.
fn pwsh_invocation(command: String, timeout_secs: u64) -> (inv: ShellInvocation)
    ensures
        is_pwsh_invocation(inv, command@, timeout_secs),
{
    let mut argv: Vec<String> = Vec::new();
    argv.push(String::from_str("-NoProfile"));
    argv.push(String::from_str("-NonInteractive"));
    argv.push(String::from_str("-Command"));
    argv.push(command);
    ShellInvocation { program: String::from_str("pwsh.exe"), args: argv, timeout_secs }
}

/// Plans the run of a shell tool call: refused when the command is longer than
/// `MAX_COMMAND_BYTES` UTF-8 bytes, else the PowerShell invocation of the command.
pub fn plan_power_shell(args: ShellArgs) -> (r: Result<ShellInvocation, ToolError>)
    ensures
        utf8_len(args.command@) > MAX_COMMAND_BYTES ==> r matches Err(ToolError::CommandTooLong),
        utf8_len(args.command@) <= MAX_COMMAND_BYTES ==> (r matches Ok(inv)
            && is_power_shell_invocation(inv, args.command@)),
{
    if args.command.as_str().len() > MAX_COMMAND_BYTES {
        return Err(ToolError::CommandTooLong);
    }
    Ok(pwsh_invocation(args.command, SHELL_TIMEOUT_SECS))
}

/// Plans the run of a `run_shell` call: refused (`TooLong`) when the command is longer
/// than `MAX_COMMAND_BYTES` UTF-8 bytes, else the PowerShell invocation of the command
/// with a limit of `RUN_SHELL_TIMEOUT_SECS` seconds.
pub fn plan_shell(args: ShellArgs) -> (r: Result<ShellInvocation, ToolError>)
    ensures
        utf8_len(args.command@) > MAX_COMMAND_BYTES ==> r matches Err(ToolError::TooLong),
        utf8_len(args.command@) <= MAX_COMMAND_BYTES ==> (r matches Ok(inv) && is_pwsh_invocation(
            inv,
            args.command@,
            RUN_SHELL_TIMEOUT_SECS,
        )),
{
    if args.command.as_str().len() > MAX_COMMAND_BYTES {
        return Err(ToolError::TooLong);
    }
    Ok(pwsh_invocation(args.command, RUN_SHELL_TIMEOUT_SECS))
}

/// The outcome of a finished command, as reported back to the model.
#[derive(Debug)]
pub struct ShellReport {
    pub success: bool,
    pub exit_code: Option<i32>,
    pub stdout: String,
    pub stderr: String,
}

/// The report of a finished command whose output streams decode to `stdout` and
/// `stderr`: each cut to `MAX_OUTPUT_CHARS` characters.
pub fn report_from_text(success: bool, exit_code: Option<i32>, stdout: &str, stderr: &str) -> (r:
    ShellReport)
    ensures
        r.success == success,
        r.exit_code == exit_code,
        r.stdout@ == truncate_spec(stdout@, MAX_OUTPUT_CHARS as nat),
        r.stderr@ == truncate_spec(stderr@, MAX_OUTPUT_CHARS as nat),
{
    ShellReport {
        success,
        exit_code,
        stdout: truncate(stdout, MAX_OUTPUT_CHARS),
        stderr: truncate(stderr, MAX_OUTPUT_CHARS),
    }
}

/// The report of a finished command: both output streams decoded (invalid UTF-8
/// replaced) and cut to `MAX_OUTPUT_CHARS` characters.
pub fn shell_report(success: bool, exit_code: Option<i32>, stdout: &[u8], stderr: &[u8]) -> (r:
    ShellReport)
    ensures
        r.success == success,
        r.exit_code == exit_code,
        r.stdout@ == truncate_spec(utf8_lossy(stdout@), MAX_OUTPUT_CHARS as nat),
        r.stderr@ == truncate_spec(utf8_lossy(stderr@), MAX_OUTPUT_CHARS as nat),
{
    let out = from_utf8_lossy(stdout);
    let err = from_utf8_lossy(stderr);
    report_from_text(success, exit_code, out.as_str(), err.as_str())
}

} // verus!
