use localforge::inference::session::{ChatMessage, ChatRole};
use localforge::tui::chat_view::render_messages;
use localforge::tui::theme::{dim, normal, success, title, warn};
use localforge::tui::themes::{Color, StyleSpec};

fn texts(lines: &[localforge::tui::chat_view::StyledLine]) -> Vec<String> {
    lines.iter().map(|l| l.spans.iter().map(|s| s.text.as_str()).collect::<String>()).collect()
}

#[test]
fn empty_transcript_prompts() {
    let lines = render_messages(&[], true);
    assert_eq!(texts(&lines), vec!["", "  Start a conversation by typing a message below.", ""]);
    assert_eq!(lines[1].spans[0].style, dim());
}

#[test]
fn messages_become_blocks() {
    let msgs = vec![
        ChatMessage::new(ChatRole::System, "be brief".into()),
        ChatMessage::new(ChatRole::User, "line one\r\nline two\n".into()),
        ChatMessage::new(ChatRole::Assistant, "ok".into()),
    ];
    let lines = render_messages(&msgs, false);
    assert_eq!(
        texts(&lines),
        vec![
            "  ⚙ System: be brief",
            "",
            "  ▸ You",
            "    line one",
            "    line two",
            "",
            "  ◆ Assistant",
            "    ok",
            "",
        ]
    );
    assert_eq!(lines[0].spans.len(), 2);
    assert_eq!(lines[2].spans[0].style, title());
    assert_eq!(lines[3].spans[0].style, normal());
    assert_eq!(lines[6].spans[0].style, success());
    assert_eq!(lines[1].spans[0].style, StyleSpec { fg: None, bg: None, bold: false });
}

#[test]
fn generating_adds_cursor_line() {
    let msgs = vec![ChatMessage::new(ChatRole::User, "hi".into())];
    let lines = render_messages(&msgs, true);
    let last = lines.last().unwrap();
    assert_eq!(last.spans[0].text, "  ◆ Assistant ▍");
    assert_eq!(last.spans[0].style.fg, warn().fg);
    assert!(last.spans[0].style.bold);
    assert_eq!(warn().fg, Some(Color::Rgb(255, 200, 80)));
}
