use please::command::{split_command, split_words, CommandError};
use please::dispatch::{
    clipboard_failure_line, copied_line, copying_line, generated_line, plan_output, platform_line,
    prompt_line, running_line, spawn_failure_line,
};
use please::invocation::{join_prompt, resolve_platform, Invocation};
use please::outcome::{decimal_text, signed_decimal_text, RunOutcome};
use please::request::{authorization, system_instruction, GenerationRequest, COMPLETIONS_URL, MODEL};
use please::response::{command_from_content, command_from_transport, parse_reply, GenerationError};
use please::spinner::Spinner;

fn words(ws: &[&str]) -> Vec<String> {
    ws.iter().map(|w| w.to_string()).collect()
}

#[test]
fn request_carries_prompt_and_platform() {
    let r = GenerationRequest::new("list all files", "freebsd");
    assert_eq!(r.user, "list all files");
    assert!(r.system.contains("freebsd"));
    assert_eq!(r.model, MODEL);
    assert_eq!(
        r.system,
        "Generate a freebsd terminal command based on the user's input text. Always reply with one command, raw text, no formatting."
    );
}

#[test]
fn request_body_is_json_with_two_messages() {
    let prompt = "say \"hi\" \\ then\nstop";
    let r = GenerationRequest::new(prompt, "linux");
    let body = r.body();
    let v: serde_json::Value = serde_json::from_str(&body).unwrap();
    assert_eq!(v["model"].as_str(), Some("gpt-3.5-turbo"));
    let messages = v["messages"].as_array().unwrap();
    assert_eq!(messages.len(), 2);
    assert_eq!(messages[0]["role"].as_str(), Some("system"));
    assert_eq!(messages[0]["content"].as_str(), Some(r.system.as_str()));
    assert_eq!(messages[1]["role"].as_str(), Some("user"));
    assert_eq!(messages[1]["content"].as_str(), Some(prompt));
}

#[test]
fn request_body_exact_text() {
    let r = GenerationRequest::new("a", "b");
    let body = r.body();
    let expected = format!(
        "{{\"model\":\"gpt-3.5-turbo\",\"messages\":[{{\"role\":\"system\",\"content\":\"{}\"}},{{\"role\":\"user\",\"content\":\"a\"}}]}}",
        system_instruction("b")
    );
    assert_eq!(body, expected);
}

#[test]
fn bearer_authorization() {
    assert_eq!(authorization("SECRET-REDACTED"), "Bearer SECRET-REDACTED");
    assert!(COMPLETIONS_URL.starts_with("https://"));
}

#[test]
fn reply_with_content_gives_command() {
    let body = r#"{"choices":[{"message":{"role":"assistant","content":"ls -la"}}]}"#;
    assert_eq!(parse_reply(body), Ok("ls -la".to_string()));
}

#[test]
fn reply_content_is_not_trimmed() {
    let body = r#"{"choices":[{"message":{"content":"  ls -la\n"}},{"message":{"content":"pwd"}}]}"#;
    assert_eq!(parse_reply(body), Ok("  ls -la\n".to_string()));
}

#[test]
fn reply_not_json_is_malformed() {
    assert_eq!(parse_reply("<html>bad gateway</html>"), Err(GenerationError::MalformedResponse));
    assert_eq!(parse_reply(""), Err(GenerationError::MalformedResponse));
}

#[test]
fn reply_with_no_choices_is_malformed() {
    assert_eq!(parse_reply(r#"{"choices":[]}"#), Err(GenerationError::MalformedResponse));
    assert_eq!(parse_reply(r#"{"error":{"message":"quota"}}"#), Err(GenerationError::MalformedResponse));
}

#[test]
fn reply_with_non_text_content_is_malformed() {
    assert_eq!(
        parse_reply(r#"{"choices":[{"message":{"content":null}}]}"#),
        Err(GenerationError::MalformedResponse)
    );
    assert_eq!(
        parse_reply(r#"{"choices":[{"message":{"content":42}}]}"#),
        Err(GenerationError::MalformedResponse)
    );
}

#[test]
fn content_becomes_command() {
    assert_eq!(command_from_content(Some("pwd")), Ok("pwd".to_string()));
    assert_eq!(command_from_content(None), Err(GenerationError::MalformedResponse));
}

#[test]
fn transport_failure_is_reported() {
    let r = command_from_transport(Err("connection refused".to_string()));
    assert_eq!(r, Err(GenerationError::Transport("connection refused".to_string())));
    assert_eq!(r.unwrap_err().report(), "Error: connection refused");
    let ok = command_from_transport(Ok(r#"{"choices":[{"message":{"content":"date"}}]}"#.to_string()));
    assert_eq!(ok, Ok("date".to_string()));
    assert_eq!(
        GenerationError::MalformedResponse.report(),
        "Error: the reply holds no command"
    );
}

#[test]
fn spinner_cycles_frames() {
    let mut s = Spinner::new();
    assert_eq!(s.tick(), Some("\rGenerating a command | ".to_string()));
    assert_eq!(s.tick(), Some("\rGenerating a command / ".to_string()));
    assert_eq!(s.tick(), Some("\rGenerating a command - ".to_string()));
    assert_eq!(s.tick(), Some("\rGenerating a command \\ ".to_string()));
    assert_eq!(s.tick(), Some("\rGenerating a command | ".to_string()));
}

#[test]
fn spinner_is_silent_after_cancel() {
    let mut s = Spinner::new();
    let mut out = String::new();
    out.push_str(&s.tick().unwrap());
    out.push_str(&s.tick().unwrap());
    out.push_str(&s.cancel());
    for _ in 0..10 {
        assert_eq!(s.tick(), None);
    }
    assert!(s.cancelled);
    assert!(out.ends_with("\x1b[2K\r"));
    assert_eq!(out.chars().last(), Some('\r'));
}

#[test]
fn split_git_status() {
    let c = split_command("git status").unwrap();
    assert_eq!(c.program, "git");
    assert_eq!(c.args, vec!["status".to_string()]);
}

#[test]
fn split_empty_is_error() {
    assert!(matches!(split_command(""), Err(CommandError::EmptyCommand)));
    assert!(matches!(split_command(" \t\n "), Err(CommandError::EmptyCommand)));
    assert_eq!(CommandError::EmptyCommand.report(), "Cannot run an empty command");
}

#[test]
fn split_on_any_whitespace() {
    assert_eq!(split_words("  ls\t-l \n /tmp  "), words(&["ls", "-l", "/tmp"]));
    assert_eq!(split_words("a\u{3000}b\u{a0}c"), words(&["a", "b", "c"]));
    assert_eq!(split_words("'a b'"), words(&["'a", "b'"]));
    let c = split_command("echo").unwrap();
    assert_eq!(c.program, "echo");
    assert!(c.args.is_empty());
}

#[test]
fn prompt_words_joined_with_spaces() {
    assert_eq!(join_prompt(&words(&["list", "files"])), "list files");
    assert_eq!(join_prompt(&words(&[])), "");
    assert_eq!(join_prompt(&words(&["one"])), "one");
    assert_eq!(join_prompt(&words(&["a", "", "b"])), "a  b");
}

#[test]
fn platform_flag_or_host() {
    assert_eq!(resolve_platform(Some("windows".to_string()), "linux"), "windows");
    assert_eq!(resolve_platform(None, "macos"), "macos");
}

#[test]
fn plain_invocation_prints_only() {
    let inv = Invocation::new(&words(&["list", "files"]), None, "linux", false, false);
    assert_eq!(inv.prompt, "list files");
    assert_eq!(inv.platform, "linux");
    assert!(!inv.copy && !inv.run);
    let d = plan_output("ls", inv.copy, inv.run);
    assert_eq!(d.announce, "Generated command: `ls`");
    assert!(d.copy.is_none());
    assert!(d.run.is_none());
}

#[test]
fn copy_and_run_invocation() {
    let inv = Invocation::new(&words(&["say", "hi"]), Some("linux".to_string()), "macos", true, true);
    assert_eq!(inv.platform, "linux");
    let d = plan_output("echo hi", inv.copy, inv.run);
    assert_eq!(d.announce, "Generated command: `echo hi`");
    assert_eq!(d.copy, Some("echo hi".to_string()));
    let c = d.run.unwrap().unwrap();
    assert_eq!(c.program, "echo");
    assert_eq!(c.args, vec!["hi".to_string()]);
    assert_eq!(RunOutcome::from_status(true, Some(0)).report(), "Command executed successfully!");
}

#[test]
fn run_of_empty_command_is_handled() {
    let d = plan_output("", false, true);
    assert!(matches!(d.run, Some(Err(CommandError::EmptyCommand))));
}

#[test]
fn outcome_reports() {
    assert_eq!(RunOutcome::from_status(true, None), RunOutcome::Succeeded);
    assert_eq!(RunOutcome::from_status(false, Some(127)), RunOutcome::Failed(127));
    assert_eq!(RunOutcome::from_status(false, None), RunOutcome::Failed(0));
    assert_eq!(RunOutcome::Failed(127).report(), "Command failed with exit code: 127");
    assert_eq!(RunOutcome::Failed(0).report(), "Command failed with exit code: 0");
    assert_eq!(RunOutcome::Failed(-3).report(), "Command failed with exit code: -3");
}

#[test]
fn decimal_rendering() {
    assert_eq!(decimal_text(0), "0");
    assert_eq!(decimal_text(10), "10");
    assert_eq!(decimal_text(u64::MAX), u64::MAX.to_string());
    assert_eq!(signed_decimal_text(i32::MIN), i32::MIN.to_string());
    assert_eq!(signed_decimal_text(i32::MAX), i32::MAX.to_string());
}

#[test]
fn report_lines() {
    assert_eq!(prompt_line("list files"), "Prompt: `list files`");
    assert_eq!(platform_line("linux"), "Target platform: `linux`");
    assert_eq!(generated_line("ls"), "Generated command: `ls`");
    assert_eq!(copying_line("ls"), "Copying `ls` to clipboard...");
    assert_eq!(running_line("ls"), "Running `ls`...");
    assert_eq!(copied_line(), "Command copied successfully!");
    assert_eq!(clipboard_failure_line("no display"), "Could not copy to the clipboard: no display");
    assert_eq!(spawn_failure_line("nope", "not found"), "Could not run `nope`: not found");
}

#[test]
fn only_first_choice_is_used() {
    let body = r#"{"choices":[{"message":{"content":"uname -a"}},{"message":{"content":"rm -rf /"}}]}"#;
    assert_eq!(parse_reply(body), Ok("uname -a".to_string()));
    let nested = r#"{"choices":[{"message":{"content":"a\"b\\c\n"}}]}"#;
    assert_eq!(parse_reply(nested), Ok("a\"b\\c\n".to_string()));
}

#[test]
fn request_body_escapes_control_characters() {
    let r = GenerationRequest::new("\u{1}\t/", "x");
    let body = r.body();
    assert!(body.ends_with("{\"role\":\"user\",\"content\":\"\\u0001\\t/\"}]}"));
}
