use dd_agent::tools::{decide_on_policy_form, load_power_shell_tools, plan_shell, power_shell_tool, report_from_text, shell_tool, RUN_SHELL_TIMEOUT_SECS};
use dd_agent::tools::{
    check_power_shell, load_tools, plan_power_shell, shell_report, truncate, PolicyDecision,
    ShellArgs, ToolError, ToolType, MAX_OUTPUT_CHARS, SHELL_TIMEOUT_SECS,
};

#[test]
fn truncate_counts_characters_not_bytes() {
    assert_eq!(truncate("你好世界", 2), "你好");
    assert_eq!(truncate("abc", 10), "abc");
    assert_eq!(truncate("abc", 0), "");
    assert_eq!(truncate("", 3), "");
}

#[test]
fn truncating_twice_is_truncating_once() {
    let once = truncate("hello world", 5);
    assert_eq!(truncate(&once, 5), once);
}

fn denied_reason(command: &str) -> Option<String> {
    match check_power_shell(command) {
        PolicyDecision::Deny { reason } => Some(reason),
        PolicyDecision::Allow => None,
        PolicyDecision::RequestApproval { .. } => panic!("never requested"),
    }
}

#[test]
fn denied_patterns_are_found_case_insensitively() {
    assert_eq!(
        denied_reason("  Invoke-Expression $code "),
        Some("command contains denied pattern: invoke-expression".to_string())
    );
    assert_eq!(
        denied_reason("Format-Volume -DriveLetter D"),
        Some("command contains denied pattern: format-volume".to_string())
    );
    assert_eq!(
        denied_reason("powershell -EncodedCommand AAAA"),
        Some("command contains denied pattern: -encodedcommand".to_string())
    );
}

#[test]
fn first_pattern_in_list_order_is_reported() {
    assert_eq!(
        denied_reason("Format-Volume D; iex $x"),
        Some("command contains denied pattern: iex ".to_string())
    );
}

#[test]
fn harmless_commands_are_allowed() {
    assert_eq!(denied_reason("Get-ChildItem"), None);
    assert_eq!(denied_reason("  iex  "), None);
    assert_eq!(denied_reason(""), None);
}

#[test]
fn surrounding_space_does_not_change_the_decision() {
    for cmd in ["iex $a", "Get-Date", "Clear-Disk 1"] {
        let padded = format!(" \t{cmd}\n ");
        assert_eq!(denied_reason(cmd), denied_reason(&padded));
    }
}

#[test]
fn the_shell_tool_is_offered() {
    let tools = load_tools();
    assert_eq!(tools.len(), 1);
    let f = &tools[0].function;
    assert!(matches!(tools[0].tool_type, ToolType::Function));
    assert_eq!(f.name, "run_shell");
    assert_eq!(f.description, "在受限的本地工作目录执行 PowerShell");
    assert!(f.strict);
    assert_eq!(f.parameters.properties.len(), 1);
    assert_eq!(f.parameters.properties[0].name, "command");
    assert_eq!(f.parameters.properties[0].description, "要执行的命令");
    assert_eq!(f.parameters.required, vec!["command".to_string()]);
    assert!(!f.parameters.additional_properties);
}

#[test]
fn commands_longer_than_the_limit_are_refused() {
    let long = ShellArgs { command: "a".repeat(4097) };
    let err = plan_power_shell(long).unwrap_err();
    assert!(matches!(err, ToolError::CommandTooLong));
    assert_eq!(err.message(), "命令太长");
    let wide = ShellArgs { command: "你".repeat(1400) };
    assert!(plan_power_shell(wide).is_err());
}

#[test]
fn commands_within_the_limit_become_a_power_shell_invocation() {
    let command = "a".repeat(4096);
    let inv = plan_power_shell(ShellArgs { command: command.clone() }).unwrap();
    assert_eq!(inv.program, "pwsh.exe");
    assert_eq!(inv.args, vec!["-NoProfile".to_string(), "-NonInteractive".to_string(), "-Command".to_string(), command]);
    assert_eq!(inv.timeout_secs, SHELL_TIMEOUT_SECS);
    assert_eq!(SHELL_TIMEOUT_SECS, 40);
}

#[test]
fn reports_decode_lossily_and_cut_long_output() {
    let report = shell_report(false, Some(1), &[0x66, 0x6f, 0xff, 0x6f], "错误".as_bytes());
    assert!(!report.success);
    assert_eq!(report.exit_code, Some(1));
    assert_eq!(report.stdout, "fo\u{fffd}o");
    assert_eq!(report.stderr, "错误");
    let big = "x".repeat(MAX_OUTPUT_CHARS + 5);
    let report = shell_report(true, None, big.as_bytes(), b"");
    assert_eq!(report.stdout.chars().count(), 16000);
    assert_eq!(report.exit_code, None);
}

#[test]
fn decisions_on_the_policy_form() {
    assert!(matches!(decide_on_policy_form("remove-partition -disknumber 1"), PolicyDecision::Deny { .. }));
    // Upper case is not lowered again at this stage.
    assert!(matches!(decide_on_policy_form("REMOVE-PARTITION"), PolicyDecision::Allow));
    assert!(matches!(decide_on_policy_form("add-mppreference -x"), PolicyDecision::Deny { reason } if reason == "command contains denied pattern: add-mppreference"));
}

#[test]
fn reports_from_decoded_text() {
    let long = "é".repeat(16001);
    let r = report_from_text(true, Some(0), &long, "");
    assert_eq!(r.stdout.chars().count(), 16000);
    assert_eq!(r.stderr, "");
    assert!(r.success);
    assert_eq!(r.exit_code, Some(0));
}

#[test]
fn the_spaced_shell_tool_keeps_its_description() {
    let t = power_shell_tool();
    assert_eq!(t.function.name, "run_shell");
    assert_eq!(t.function.description, "在受限的本地工作目录执行 PowerShell ");
    assert!(t.function.strict);
    assert_eq!(t.function.parameters.required, vec!["command".to_string()]);
    assert_eq!(shell_tool().function.description, "在受限的本地工作目录执行 PowerShell");
}

#[test]
fn run_shell_plans_with_its_own_limit_and_message() {
    let err = plan_shell(ShellArgs { command: "b".repeat(4097) }).unwrap_err();
    assert!(matches!(err, ToolError::TooLong));
    assert_eq!(err.message(), "太长了");
    let inv = plan_shell(ShellArgs { command: "dir".to_string() }).unwrap();
    assert_eq!(inv.program, "pwsh.exe");
    assert_eq!(inv.args.last().map(String::as_str), Some("dir"));
    assert_eq!(inv.timeout_secs, RUN_SHELL_TIMEOUT_SECS);
    assert_eq!(RUN_SHELL_TIMEOUT_SECS, 30);
}

#[test]
fn the_spaced_tool_list_holds_one_tool() {
    let tools = load_power_shell_tools();
    assert_eq!(tools.len(), 1);
    assert_eq!(tools[0].function.description, "在受限的本地工作目录执行 PowerShell ");
}
