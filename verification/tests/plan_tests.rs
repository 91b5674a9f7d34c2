use custom_executor::AppendPrompt;
use custom_executor::CmdOverrides;
use custom_executor::CommandBuilder;
use custom_executor::Custom;
use custom_executor::EnvVar;
use custom_executor::PlanError;
use custom_executor::PromptMode;
use custom_executor::SimpleSpawnPlan;
use custom_executor::SpawnDispatch;
use custom_executor::ValidationError;
use custom_executor::tokenize;

fn config(command: &str, prompt_mode: PromptMode, prompt_arg: Option<&str>) -> Custom<()> {
    Custom {
        command: command.to_string(),
        prompt_mode,
        prompt_arg: prompt_arg.map(|a| a.to_string()),
        acp: false,
        session_namespace: None,
        append_prompt: AppendPrompt::default(),
        cmd: CmdOverrides::default(),
        approvals: None,
    }
}

fn strings(items: &[&str]) -> Vec<String> {
    items.iter().map(|s| s.to_string()).collect()
}

fn simple_plan(custom: &Custom<()>, prompt: &str) -> SimpleSpawnPlan {
    match custom.spawn_plan(prompt) {
        Ok(SpawnDispatch::Simple(plan)) => plan,
        Ok(SpawnDispatch::Acp(_)) => panic!("expected the simple path"),
        Err(e) => panic!("expected a plan, got {:?}", e),
    }
}

#[test]
fn tokenize_splits_on_whitespace_runs() {
    assert_eq!(tokenize("npx -y @cline/cli"), strings(&["npx", "-y", "@cline/cli"]));
    assert_eq!(tokenize("  spaced \t out\ncommand  "), strings(&["spaced", "out", "command"]));
    assert_eq!(tokenize("single"), strings(&["single"]));
    assert_eq!(tokenize(""), Vec::<String>::new());
    assert_eq!(tokenize(" \t\r\n "), Vec::<String>::new());
}

#[test]
fn tokenize_handles_unicode_whitespace() {
    assert_eq!(tokenize("a\u{3000}b\u{00A0}c"), strings(&["a", "b", "c"]));
    assert_eq!(tokenize("\u{2003}\u{2028}"), Vec::<String>::new());
}

#[test]
fn empty_prompt_still_delivered_on_stdin() {
    let custom = config("cat", PromptMode::Stdin, None);
    let plan = simple_plan(&custom, "");
    assert_eq!(plan.stdin_payload, Some("".to_string()));
    assert_eq!(plan.parts.tokens, strings(&["cat"]));
}

#[test]
fn builder_appends_params_in_order() {
    let builder = CommandBuilder::new("tool --verbose");
    let builder = builder.extend_params(strings(&["-a", "-b"]));
    let builder = builder.extend_params(strings(&["-c"]));
    let parts = builder.build_initial().expect("non-blank base");
    assert_eq!(parts.tokens, strings(&["tool", "--verbose", "-a", "-b", "-c"]));
}

#[test]
fn builder_rejects_blank_base() {
    let builder = CommandBuilder::new("   ");
    assert_eq!(builder.build_initial().unwrap_err(), PlanError::EmptyCommandLine);
}

#[test]
fn stdin_plan_keeps_prompt_out_of_args() {
    let custom = config("cat", PromptMode::Stdin, None);
    let plan = simple_plan(&custom, "hello");
    assert_eq!(plan.parts.tokens, strings(&["cat"]));
    assert_eq!(plan.stdin_payload, Some("hello".to_string()));
    assert_eq!(plan.env_overrides.len(), 0);
}

#[test]
fn arg_plan_appends_flag_and_prompt_last() {
    let mut custom = config("tool --fast", PromptMode::Arg, Some("--message"));
    custom.cmd.additional_params = Some(strings(&["--color"]));
    let plan = simple_plan(&custom, "do it");
    assert_eq!(plan.parts.tokens, strings(&["tool", "--fast", "--color", "--message", "do it"]));
    assert_eq!(plan.stdin_payload, None);
}

#[test]
fn last_positional_plan_appends_prompt_last() {
    let mut custom = config("echo", PromptMode::LastPositional, None);
    custom.cmd.additional_params = Some(strings(&["-n"]));
    let plan = simple_plan(&custom, "world");
    assert_eq!(plan.parts.tokens, strings(&["echo", "-n", "world"]));
    assert_eq!(plan.stdin_payload, None);
}

#[test]
fn append_prompt_suffix_reaches_delivery() {
    let mut custom = config("cat", PromptMode::Stdin, None);
    custom.append_prompt = AppendPrompt(Some(" -- end".to_string()));
    let plan = simple_plan(&custom, "hello");
    assert_eq!(plan.stdin_payload, Some("hello -- end".to_string()));

    let mut positional = config("echo", PromptMode::LastPositional, None);
    positional.append_prompt = AppendPrompt(Some(" -- end".to_string()));
    let plan = simple_plan(&positional, "hello");
    assert_eq!(plan.parts.tokens, strings(&["echo", "hello -- end"]));
}

#[test]
fn base_command_override_replaces_command() {
    let mut custom = config("original --x", PromptMode::LastPositional, None);
    custom.cmd.base_command_override = Some("replacement --y".to_string());
    let plan = simple_plan(&custom, "p");
    assert_eq!(plan.parts.tokens, strings(&["replacement", "--y", "p"]));
}

#[test]
fn env_overrides_carry_into_plan() {
    let mut custom = config("tool", PromptMode::Stdin, None);
    custom.cmd.env = Some(vec![
        EnvVar { key: "FIRST".to_string(), value: "1".to_string() },
        EnvVar { key: "SECOND".to_string(), value: "2".to_string() },
    ]);
    let plan = simple_plan(&custom, "p");
    assert_eq!(plan.env_overrides.len(), 2);
    assert_eq!(plan.env_overrides[0].key, "FIRST".to_string());
    assert_eq!(plan.env_overrides[0].value, "1".to_string());
    assert_eq!(plan.env_overrides[1].key, "SECOND".to_string());
    assert_eq!(plan.env_overrides[1].value, "2".to_string());
}

#[test]
fn spawn_plan_rejects_invalid_arg_mode_before_planning() {
    let custom = config("tool", PromptMode::Arg, None);
    assert_eq!(
        custom.spawn_plan("p").unwrap_err(),
        PlanError::Invalid(ValidationError::MissingPromptArg)
    );
}

#[test]
fn spawn_plan_rejects_blank_command() {
    let custom = config(" ", PromptMode::Stdin, None);
    assert_eq!(
        custom.spawn_plan("p").unwrap_err(),
        PlanError::Invalid(ValidationError::EmptyCommand)
    );
}

#[test]
fn spawn_plan_rejects_blank_override() {
    let mut custom = config("tool", PromptMode::Stdin, None);
    custom.cmd.base_command_override = Some(" \t ".to_string());
    assert_eq!(custom.spawn_plan("p").unwrap_err(), PlanError::EmptyCommandLine);
}

#[test]
fn spawn_plan_is_deterministic() {
    let mut custom = config("tool -v", PromptMode::Arg, Some("-p"));
    custom.cmd.additional_params = Some(strings(&["--flag"]));
    let first = simple_plan(&custom, "same prompt");
    let second = simple_plan(&custom, "same prompt");
    assert_eq!(first.parts.tokens, second.parts.tokens);
    assert_eq!(first.stdin_payload, second.stdin_payload);
    assert_eq!(first.env_overrides.len(), second.env_overrides.len());
}

#[test]
fn follow_up_without_acp_plans_a_fresh_spawn() {
    let custom = config("tool --x", PromptMode::LastPositional, None);
    let fresh = simple_plan(&custom, "prompt");
    let follow_up = match custom.spawn_follow_up_plan("prompt", "ignored-session") {
        Ok(SpawnDispatch::Simple(plan)) => plan,
        other => panic!("expected the simple path, got {:?}", other.is_ok()),
    };
    assert_eq!(fresh.parts.tokens, follow_up.parts.tokens);
    assert_eq!(fresh.stdin_payload, follow_up.stdin_payload);
}

#[test]
fn acp_spawn_plan_carries_namespace_and_prompt() {
    let mut custom = config("agent --acp", PromptMode::Stdin, None);
    custom.acp = true;
    custom.session_namespace = Some("my_sessions".to_string());
    custom.append_prompt = AppendPrompt(Some("!".to_string()));
    let plan = match custom.spawn_plan("hi") {
        Ok(SpawnDispatch::Acp(plan)) => plan,
        _ => panic!("expected the protocol path"),
    };
    assert_eq!(plan.harness.session_namespace, "my_sessions".to_string());
    assert_eq!(plan.prompt, "hi!".to_string());
    assert_eq!(plan.parts.tokens, strings(&["agent", "--acp"]));
    assert_eq!(plan.session_id, None);
}

#[test]
fn acp_follow_up_plan_resumes_session() {
    let mut custom = config("agent", PromptMode::Stdin, None);
    custom.acp = true;
    let plan = match custom.spawn_follow_up_plan("more", "sess-42") {
        Ok(SpawnDispatch::Acp(plan)) => plan,
        _ => panic!("expected the protocol path"),
    };
    assert_eq!(plan.harness.session_namespace, "custom_sessions".to_string());
    assert_eq!(plan.prompt, "more".to_string());
    assert_eq!(plan.parts.tokens, strings(&["agent"]));
    assert_eq!(plan.session_id, Some("sess-42".to_string()));
}

#[test]
fn acp_prompt_never_joins_args() {
    let mut custom = config("agent", PromptMode::Stdin, None);
    custom.acp = true;
    let plan = match custom.spawn_plan("a long prompt") {
        Ok(SpawnDispatch::Acp(plan)) => plan,
        _ => panic!("expected the protocol path"),
    };
    assert_eq!(plan.parts.tokens, strings(&["agent"]));
}
