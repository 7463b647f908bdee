//! The chat transcript as styled text lines, ready to be drawn.

use crate::app::messages_view;
use crate::inference::session::{ChatMessage, ChatRole};
use crate::text::{chars_of, lines_of, lines_seq, pieces_view, string_of};
use crate::tui::theme::{dim, dim_spec, normal, normal_spec, success, success_spec, title, title_spec};
use crate::tui::themes::{Color, StyleSpec};
use vstd::prelude::*;
use vstd::string::*;

verus! {

/// A piece of text in one style.
#[derive(Debug, Clone)]
pub struct StyledSpan {
    pub text: String,
    pub style: StyleSpec,
}

/// One line of the transcript, made of styled pieces.
#[derive(Debug, Clone)]
pub struct StyledLine {
    pub spans: Vec<StyledSpan>,
}

/// The abstract content of a line: its pieces' texts and styles.
pub open spec fn line_view(l: StyledLine) -> Seq<(Seq<char>, StyleSpec)> {
    l.spans@.map_values(|s: StyledSpan| (s.text@, s.style))
}

/// The abstract content of a list of lines.
pub open spec fn text_view(v: Seq<StyledLine>) -> Seq<Seq<(Seq<char>, StyleSpec)>> {
    v.map_values(|l: StyledLine| line_view(l))
}

/// The terminal's own style.
pub open spec fn plain_spec() -> StyleSpec {
    StyleSpec { fg: None, bg: None, bold: false }
}

/// An empty line.
pub open spec fn blank_line() -> Seq<(Seq<char>, StyleSpec)> {
    seq![(seq![], plain_spec())]
}

/// A message's text, one indented white line per line of it.
pub open spec fn body_lines(content: Seq<char>) -> Seq<Seq<(Seq<char>, StyleSpec)>> {
    lines_seq(content).map_values(|t: Seq<char>| seq![("    "@ + t, normal_spec())])
}

/// The lines of one message: a header naming the speaker (a system message
/// is shown inline), its text, and an empty line.
pub open spec fn message_block(role: ChatRole, content: Seq<char>) -> Seq<
    Seq<(Seq<char>, StyleSpec)>,
> {
    match role {
        ChatRole::System => seq![
            seq![("  ⚙ System: "@, dim_spec()), (content, dim_spec())],
            blank_line(),
        ],
        ChatRole::User => seq![seq![("  ▸ You"@, title_spec())]] + body_lines(content) + seq![
            blank_line(),
        ],
        ChatRole::Assistant => seq![seq![("  ◆ Assistant"@, success_spec())]] + body_lines(
            content,
        ) + seq![blank_line()],
    }
}

/// The blocks of all messages, in order.
pub open spec fn conversation(ms: Seq<(ChatRole, Seq<char>)>) -> Seq<Seq<(Seq<char>, StyleSpec)>>
    decreases ms.len(),
{
    if ms.len() == 0 {
        seq![]
    } else {
        conversation(ms.drop_last()) + message_block(ms.last().0, ms.last().1)
    }
}

/// The line shown while a reply is being generated.
pub open spec fn generating_line() -> Seq<(Seq<char>, StyleSpec)> {
    seq![("  ◆ Assistant ▍"@, StyleSpec { fg: Some(Color::Rgb(255, 200, 80)), bg: None, bold: true })]
}

/// The transcript: a prompt to start when there are no messages; otherwise
/// every message's block, followed by the generating line while a reply is
/// on its way.
pub open spec fn spec_render_messages(ms: Seq<(ChatRole, Seq<char>)>, is_generating: bool) -> Seq<
    Seq<(Seq<char>, StyleSpec)>,
> {
    if ms.len() == 0 {
        seq![
            blank_line(),
            seq![("  Start a conversation by typing a message below."@, dim_spec())],
            blank_line(),
        ]
    } else if is_generating {
        conversation(ms).push(generating_line())
    } else {
        conversation(ms)
    }
}

fn single(text: String, style: StyleSpec) -> (r: StyledLine)
    ensures
        line_view(r) == seq![(text@, style)],
{
    let mut spans: Vec<StyledSpan> = Vec::new();
    spans.push(StyledSpan { text, style });
    let r = StyledLine { spans };
    assert(line_view(r) =~= seq![(text@, style)]);
    r
}

fn blank() -> (r: StyledLine)
    ensures
        line_view(r) == blank_line(),
{
    let r = single(String::new(), StyleSpec { fg: None, bg: None, bold: false });
    assert(line_view(r) =~= blank_line());
    r
}

fn push_line(out: &mut Vec<StyledLine>, line: StyledLine)
    ensures
        text_view(final(out)@) == text_view(old(out)@).push(line_view(line)),
{
    let ghost before = text_view(out@);
    out.push(line);
    assert(text_view(out@) =~= before.push(line_view(line)));
}

/// Append a message's text, one indented line per line of it.
fn push_body(out: &mut Vec<StyledLine>, content: &String)
    ensures
        text_view(final(out)@) == text_view(old(out)@) + body_lines(content@),
{
    let cs = chars_of(content.as_str());
    let ls = lines_of(cs.as_slice());
    let ghost lv = pieces_view(ls@);
    let ghost start = text_view(out@);
    let ghost f = |t: Seq<char>| seq![("    "@ + t, normal_spec())];
    let mut i: usize = 0;
    assert(lv.take(0).map_values(f) =~= Seq::<Seq<(Seq<char>, StyleSpec)>>::empty());
    while i < ls.len()
        invariant
            lv == pieces_view(ls@),
            lv == lines_seq(content@),
            f == (|t: Seq<char>| seq![("    "@ + t, normal_spec())]),
            i <= ls@.len(),
            text_view(out@) == start + lv.take(i as int).map_values(f),
        decreases ls.len() - i,
    {
        let mut t = String::from_str("    ");
        let piece = string_of(ls[i].as_slice());
        t.append(piece.as_str());
        assert(piece@ == lv[i as int]);
        let style = normal();
        let line = single(t, style);
        push_line(out, line);
        assert(lv.take(i + 1).map_values(f) =~= lv.take(i as int).map_values(f).push(
            f(lv[i as int]),
        ));
        i = i + 1;
    }
    assert(lv.take(ls.len() as int) =~= lv);
}

/// Append the lines of one message.
fn push_message(out: &mut Vec<StyledLine>, msg: &ChatMessage)
    ensures
        text_view(final(out)@) == text_view(old(out)@) + message_block(msg.role, msg.content@),
{
    let ghost start = text_view(out@);
    match msg.role {
        ChatRole::System => {
            let mut spans: Vec<StyledSpan> = Vec::new();
            spans.push(StyledSpan { text: String::from_str("  ⚙ System: "), style: dim() });
            spans.push(StyledSpan { text: msg.content.clone(), style: dim() });
            let line = StyledLine { spans };
            assert(line_view(line) =~= seq![("  ⚙ System: "@, dim_spec()), (msg.content@, dim_spec())]);
            push_line(out, line);
            push_line(out, blank());
            assert(text_view(out@) =~= start + message_block(msg.role, msg.content@));
        },
        ChatRole::User => {
            push_line(out, single(String::from_str("  ▸ You"), title()));
            let ghost mid = text_view(out@);
            push_body(out, &msg.content);
            push_line(out, blank());
            assert(text_view(out@) =~= start + message_block(msg.role, msg.content@));
        },
        ChatRole::Assistant => {
            push_line(out, single(String::from_str("  ◆ Assistant"), success()));
            push_body(out, &msg.content);
            push_line(out, blank());
            assert(text_view(out@) =~= start + message_block(msg.role, msg.content@));
        },
    }
}

/// Convert a chat message list into styled lines for rendering.
pub fn render_messages(messages: &[ChatMessage], is_generating: bool) -> (r: Vec<StyledLine>)
    ensures
        text_view(r@) == spec_render_messages(messages_view(messages@), is_generating),
{
    let ghost mv = messages_view(messages@);
    let mut lines: Vec<StyledLine> = Vec::new();
    if messages.len() == 0 {
        push_line(&mut lines, blank());
        push_line(
            &mut lines,
            single(String::from_str("  Start a conversation by typing a message below."), dim()),
        );
        push_line(&mut lines, blank());
        assert(text_view(lines@) =~= spec_render_messages(mv, is_generating));
        return lines;
    }
    let mut i: usize = 0;
    assert(text_view(lines@) =~= conversation(mv.take(0)));
    while i < messages.len()
        invariant
            mv == messages_view(messages@),
            i <= messages@.len(),
            text_view(lines@) == conversation(mv.take(i as int)),
        decreases messages.len() - i,
    {
        push_message(&mut lines, &messages[i]);
        assert(mv.take(i + 1).drop_last() =~= mv.take(i as int));
        assert(mv.take(i + 1).last() == mv[i as int]);
        i = i + 1;
    }
    assert(mv.take(messages.len() as int) =~= mv);
    if is_generating {
        let mut spans: Vec<StyledSpan> = Vec::new();
        spans.push(
            StyledSpan {
                text: String::from_str("  ◆ Assistant ▍"),
                style: StyleSpec { fg: Some(Color::Rgb(255, 200, 80)), bg: None, bold: true },
            },
        );
        let line = StyledLine { spans };
        assert(line_view(line) =~= generating_line());
        push_line(&mut lines, line);
    }
    lines
}

} // verus!
