use loopback_pool::chat::{chat_mode, compose, read_command, strip_line_end, ChatMode, LineCommand};
use loopback_pool::packet::MsgPacket;

#[test]
fn line_end_is_stripped() {
    assert_eq!(strip_line_end("hello\n"), Some("hello"));
    assert_eq!(strip_line_end("\n"), Some(""));
    assert_eq!(strip_line_end("a\u{e9}"), Some("a"));
    assert_eq!(strip_line_end(""), None);
}

#[test]
fn first_answer_selects_the_mode() {
    assert_eq!(chat_mode("1\n"), Some(ChatMode::Packet));
    assert_eq!(chat_mode("2\n"), Some(ChatMode::Text));
    assert_eq!(chat_mode("11\n"), Some(ChatMode::Text));
    assert_eq!(chat_mode("\n"), Some(ChatMode::Text));
    assert_eq!(chat_mode(""), None);
}

#[test]
fn q_quits_and_anything_else_is_said() {
    assert_eq!(read_command("q\n"), Some(LineCommand::Quit));
    assert_eq!(read_command("hello\n"), Some(LineCommand::Say("hello".to_string())));
    assert_eq!(read_command("qq\n"), Some(LineCommand::Say("qq".to_string())));
    assert_eq!(read_command("Q\n"), Some(LineCommand::Say("Q".to_string())));
    assert_eq!(read_command("\n"), Some(LineCommand::Say(String::new())));
    assert_eq!(read_command("q"), Some(LineCommand::Say(String::new())));
    assert_eq!(read_command(""), None);
}

#[test]
fn compose_keeps_the_sender() {
    let mut base = MsgPacket::dummy();
    base.id = "alice".to_string();
    let p = compose(&base, "hi".to_string());
    assert_eq!(p.id, "alice");
    assert_eq!(p.data, "hi");
    assert_eq!(p.len, 7);
    assert_eq!(base.id, "alice");
}
