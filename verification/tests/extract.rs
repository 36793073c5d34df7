use rustbot::extract::{extract_command, CommandKind};

#[test]
fn extracts_eval_block() {
    let r = extract_command("?eval ```rust\n1 + 1\n```").unwrap();
    assert!(matches!(r.kind, CommandKind::Eval));
    assert_eq!(r.code, "1 + 1");
}

#[test]
fn extracts_play_block() {
    let r = extract_command("?play ```rust\nprintln!(\"hi\");\n```").unwrap();
    assert!(matches!(r.kind, CommandKind::Play));
    assert_eq!(r.code, "println!(\"hi\");");
}

#[test]
fn extracts_empty_code_body() {
    let r = extract_command("?eval ```rust\n\n```").unwrap();
    assert!(matches!(r.kind, CommandKind::Eval));
    assert_eq!(r.code, "");
}

#[test]
fn extracts_multiline_code() {
    let r = extract_command("?play ```rust\nfn f() {}\n\nfn g() {}\n```").unwrap();
    assert_eq!(r.code, "fn f() {}\n\nfn g() {}");
}

#[test]
fn strips_extra_trailing_newlines() {
    let r = extract_command("?eval ```rust\nx\n\n\n```").unwrap();
    assert_eq!(r.code, "x");
}

#[test]
fn accepts_newline_as_separator() {
    let r = extract_command("?eval\n```rust\ncode\n```").unwrap();
    assert!(matches!(r.kind, CommandKind::Eval));
    assert_eq!(r.code, "code");
}

#[test]
fn accepts_mixed_whitespace_separator() {
    let r = extract_command("?play \t ```rust\na\n```").unwrap();
    assert_eq!(r.code, "a");
}

#[test]
fn takes_leftmost_command() {
    let r = extract_command("?play ```rust\nfirst\n``` ?eval ```rust\nsecond\n```").unwrap();
    assert!(matches!(r.kind, CommandKind::Play));
    assert_eq!(r.code, "first");
}

#[test]
fn command_may_follow_other_text() {
    let r = extract_command("please run ?eval ```rust\n42\n``` thanks").unwrap();
    assert!(matches!(r.kind, CommandKind::Eval));
    assert_eq!(r.code, "42");
}

#[test]
fn stops_code_at_first_closing_fence() {
    let r = extract_command("?eval ```rust\na\n```\nrest\n```").unwrap();
    assert_eq!(r.code, "a");
}

#[test]
fn code_may_hold_inline_backticks() {
    let r = extract_command("?play ```rust\nlet s = \"```\";\n```").unwrap();
    assert_eq!(r.code, "let s = \"```\";");
}

#[test]
fn rejects_missing_whitespace() {
    assert!(extract_command("?eval```rust\nx\n```").is_none());
}

#[test]
fn rejects_missing_newline_before_close() {
    assert!(extract_command("?eval ```rust\nx```").is_none());
}

#[test]
fn rejects_unclosed_fence() {
    assert!(extract_command("?eval ```rust\nx\n").is_none());
}

#[test]
fn rejects_wrong_language_tag() {
    assert!(extract_command("?eval ```python\nx\n```").is_none());
}

#[test]
fn rejects_unknown_keyword() {
    assert!(extract_command("?evil ```rust\nx\n```").is_none());
}

#[test]
fn rejects_plain_text() {
    assert!(extract_command("nothing to see here").is_none());
}

#[test]
fn rejects_help_text() {
    assert!(extract_command("?help").is_none());
}

#[test]
fn rejects_empty_message() {
    assert!(extract_command("").is_none());
}
