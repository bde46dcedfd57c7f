use command_strike::client::OllamaClient;
use command_strike::sanitize::sanitize_command;
use command_strike::text::trim_text;

#[test]
fn test_clean_command_response() {
    let client = OllamaClient::new().unwrap();

    assert_eq!(client.clean_command_response("```bash\nls -la\n```"), "ls -la");
    assert_eq!(client.clean_command_response("`ls -la`"), "ls -la");
    assert_eq!(client.clean_command_response("sh echo hello"), "echo hello");
    assert_eq!(client.clean_command_response("bash echo hello"), "echo hello");
}

#[test]
fn sanitize_strips_shell_word() {
    assert_eq!(sanitize_command("shell whoami"), "whoami");
    assert_eq!(sanitize_command("sh   id  "), "id");
}

#[test]
fn sanitize_fence_then_prefix() {
    assert_eq!(sanitize_command("  ```\nbash nmap -sV 10.0.0.1\n```  "), "nmap -sV 10.0.0.1");
}

#[test]
fn sanitize_fence_keeps_inner_lines() {
    assert_eq!(sanitize_command("```sh\nid\nwhoami\n```"), "id\nwhoami");
}

#[test]
fn sanitize_fence_with_one_line_break_is_empty() {
    assert_eq!(sanitize_command("```ls -la\n```"), "");
}

#[test]
fn sanitize_fence_without_line_break_keeps_inside() {
    assert_eq!(sanitize_command("```ls```"), "ls");
    assert_eq!(sanitize_command("``` id ```"), "id");
    assert_eq!(sanitize_command("```"), "");
    assert_eq!(sanitize_command("``````"), "");
}

#[test]
fn sanitize_lone_fence_markers() {
    assert_eq!(sanitize_command("```bash\nls -la"), "ls -la");
    assert_eq!(sanitize_command("```ls"), "ls");
    assert_eq!(sanitize_command("ls -la\n```"), "ls -la");
}

#[test]
fn sanitize_nested_layers() {
    assert_eq!(sanitize_command("sh ```ls```"), "ls");
    assert_eq!(sanitize_command("```\n```bash\nid\n```\n```"), "id");
}

#[test]
fn sanitize_single_backtick_is_kept() {
    assert_eq!(sanitize_command("`"), "`");
    assert_eq!(sanitize_command("``"), "");
}

#[test]
fn sanitize_empty_and_blank() {
    assert_eq!(sanitize_command(""), "");
    assert_eq!(sanitize_command(" \t\n "), "");
}

#[test]
fn sanitize_trims_unicode_space() {
    assert_eq!(sanitize_command("\u{3000}\u{a0}ls\u{2003}"), "ls");
}

#[test]
fn sanitize_is_idempotent_on_fixtures() {
    for s in ["```bash\nls -la\n```", "`ls -la`", "sh echo hello", "bash echo hello", "  cat /etc/passwd "] {
        let once = sanitize_command(s);
        assert_eq!(sanitize_command(&once), once);
    }
}

#[test]
fn sanitize_removes_every_prefix() {
    assert_eq!(sanitize_command("sh sh ls"), "ls");
    assert_eq!(sanitize_command("sh bash ls"), "ls");
    assert_eq!(sanitize_command("bash  shell   whoami"), "whoami");
}

#[test]
fn sanitize_strips_one_backtick_pair_per_pass() {
    let once = sanitize_command("`` ls ``");
    assert_eq!(once, "` ls `");
    assert_eq!(sanitize_command(&once), "ls");
}

#[test]
fn trim_text_cuts_both_ends() {
    assert_eq!(trim_text("\n  hello world \r\n"), "hello world");
    assert_eq!(trim_text("x"), "x");
}
