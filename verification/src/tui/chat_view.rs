//! What the chat panel shows: the messages of the session up to where it is
//! scrolled, each with its author, model, wrapped text and time.
use vstd::prelude::*;
use crate::text::{decimal, push_decimal, push_str};
use crate::tui::log_view::lines_view;
use crate::tui::panels::ChatPanelState;
use crate::tui::state::{Message, MessageRole};
use crate::tui::subsystems::PaletteColor;
use crate::tui::swarm_view::{blank, hint, LineView, StyledText};
use crate::tui::wrapping::{clock_time, clock_time_exec, wrap_text, wrapped_lines};

verus! {

/// The first line of a message: who wrote it, and its style.
pub open spec fn role_line(r: MessageRole) -> LineView {
    match r {
        MessageRole::User => ("You: "@, Some(PaletteColor::Green), true, false),
        MessageRole::Assistant => ("AI: "@, Some(PaletteColor::Cyan), true, false),
        MessageRole::System => ("System: "@, Some(PaletteColor::Yellow), false, true),
    }
}

/// The colour of a message's text.
pub open spec fn content_color(r: MessageRole) -> PaletteColor {
    match r {
        MessageRole::System => PaletteColor::Yellow,
        _ => PaletteColor::White,
    }
}

/// The model line of a message, where models are shown and one wrote it.
pub open spec fn model_lines(m: Message, show_model: bool) -> Seq<LineView> {
    if show_model {
        match m.model_used {
            Some(model) => seq![("  [via "@ + model@ + "]"@, Some(PaletteColor::DarkGray), false, true)],
            None => Seq::empty(),
        }
    } else {
        Seq::empty()
    }
}

/// The lines of a message whose text is laid out in `content_lines`.
pub open spec fn message_lines(m: Message, content_lines: Seq<Seq<char>>, s: ChatPanelState) -> Seq<LineView> {
    seq![role_line(m.role)] + model_lines(m, s.show_model) + content_lines.map_values(
        |l: Seq<char>| (l, Some(content_color(m.role)), false, false),
    ) + if s.show_timestamps {
        seq![("  ["@ + clock_time(m.timestamp, false) + "]"@, Some(PaletteColor::DarkGray), false, false)]
    } else {
        Seq::empty()
    } + seq![blank()]
}

/// The messages shown: all but the newest `scroll`.
pub open spec fn shown_messages(ms: Seq<Message>, scroll: nat) -> Seq<Message> {
    ms.take(if scroll < ms.len() { ms.len() - scroll } else { 0 })
}

/// The lines of the messages, their text wrapped at `width` columns.
pub open spec fn messages_lines(ms: Seq<Message>, s: ChatPanelState, width: usize) -> Seq<LineView>
    decreases ms.len(),
{
    if ms.len() == 0 {
        Seq::empty()
    } else {
        messages_lines(ms.drop_last(), s, width) + message_lines(ms.last(), wrapped_lines(ms.last().content@, width), s)
    }
}

/// What the chat panel shows of the messages `ms`, text wrapped at `width`
/// columns.
pub open spec fn chat_text(ms: Seq<Message>, s: ChatPanelState, width: usize) -> Seq<LineView> {
    if ms.len() == 0 {
        seq![
            hint("No messages yet."@),
            hint(Seq::empty()),
            hint("Press 'i' to enter insert mode and start typing."@),
            hint("Press '?' for help."@),
        ]
    } else {
        messages_lines(shown_messages(ms, s.scroll_offset as nat), s, width)
    }
}

/// The title of the chat panel: with the number of messages where there
/// are some.
pub open spec fn chat_title_text(n: nat) -> Seq<char> {
    if n > 0 {
        " Chat ("@ + decimal(n) + ") "@
    } else {
        " Chat "@
    }
}

fn push_text(out: &mut Vec<StyledText>, text: String, color: Option<PaletteColor>, bold: bool, italic: bool)
    ensures
        lines_view(final(out)@) == lines_view(old(out)@).push((text@, color, bold, italic)),
{
    out.push(StyledText { text, color, bold, italic });
    assert(lines_view(out@) =~= lines_view(old(out)@).push((text@, color, bold, italic)));
}

/// The title of the chat panel for `n` messages.
pub fn chat_title(n: usize) -> (r: String)
    ensures
        r@ == chat_title_text(n as nat),
{
    let mut r = String::new();
    if n > 0 {
        push_str(&mut r, " Chat (");
        push_decimal(&mut r, n as u64);
        push_str(&mut r, ") ");
    } else {
        push_str(&mut r, " Chat ");
    }
    r
}

/// The lines of one message, its text laid out in `content_lines`.
pub fn chat_message_lines(m: &Message, content_lines: &Vec<String>, state: &ChatPanelState) -> (r: Vec<StyledText>)
    ensures
        lines_view(r@) == message_lines(*m, content_lines@.map_values(|s: String| s@), *state),
{
    let mut out: Vec<StyledText> = Vec::new();
    match m.role {
        MessageRole::User => push_text(&mut out, "You: ".to_owned(), Some(PaletteColor::Green), true, false),
        MessageRole::Assistant => push_text(&mut out, "AI: ".to_owned(), Some(PaletteColor::Cyan), true, false),
        MessageRole::System => push_text(&mut out, "System: ".to_owned(), Some(PaletteColor::Yellow), false, true),
    }
    let ghost head = lines_view(out@);
    if state.show_model {
        match &m.model_used {
            Some(model) => {
                let mut t = String::new();
                push_str(&mut t, "  [via ");
                push_str(&mut t, model.as_str());
                push_str(&mut t, "]");
                push_text(&mut out, t, Some(PaletteColor::DarkGray), false, true);
            },
            None => {},
        }
    }
    let ghost with_model = lines_view(out@);
    let color = match m.role {
        MessageRole::System => PaletteColor::Yellow,
        _ => PaletteColor::White,
    };
    let ghost cl = content_lines@.map_values(|s: String| s@);
    let ghost body = cl.map_values(|l: Seq<char>| (l, Some(content_color(m.role)), false, false));
    let mut i: usize = 0;
    while i < content_lines.len()
        invariant
            i <= content_lines@.len(),
            color == content_color(m.role),
            cl == content_lines@.map_values(|s: String| s@),
            body == cl.map_values(|l: Seq<char>| (l, Some(content_color(m.role)), false, false)),
            lines_view(out@) == with_model + body.take(i as int),
        decreases content_lines.len() - i,
    {
        push_text(&mut out, content_lines[i].clone(), Some(color), false, false);
        assert(body.take(i + 1) =~= body.take(i as int).push(body[i as int]));
        i += 1;
    }
    assert(body.take(content_lines@.len() as int) =~= body);
    let ghost with_body = lines_view(out@);
    if state.show_timestamps {
        let mut t = String::new();
        push_str(&mut t, "  [");
        push_str(&mut t, clock_time_exec(m.timestamp, false).as_str());
        push_str(&mut t, "]");
        push_text(&mut out, t, Some(PaletteColor::DarkGray), false, false);
    }
    let ghost with_time = lines_view(out@);
    push_text(&mut out, String::new(), None, false, false);
    proof {
        assert(head =~= seq![role_line(m.role)]);
        assert(with_model =~= head + model_lines(*m, state.show_model));
        let time_part: Seq<LineView> = if state.show_timestamps {
            seq![("  ["@ + clock_time(m.timestamp, false) + "]"@, Some(PaletteColor::DarkGray), false, false)]
        } else {
            Seq::empty()
        };
        assert(with_time =~= with_body + time_part);
        assert(lines_view(out@) =~= message_lines(*m, cl, *state));
    }
    out
}

/// The lines of the chat panel for the session's `messages`, text wrapped at
/// `wrap_width` columns.
pub fn chat_panel_lines(messages: &Vec<Message>, state: &ChatPanelState, wrap_width: usize) -> (r: Vec<StyledText>)
    ensures
        lines_view(r@) == chat_text(messages@, *state, wrap_width),
{
    let mut out: Vec<StyledText> = Vec::new();
    if messages.len() == 0 {
        push_text(&mut out, "No messages yet.".to_owned(), Some(PaletteColor::DarkGray), false, true);
        push_text(&mut out, String::new(), Some(PaletteColor::DarkGray), false, true);
        push_text(
            &mut out,
            "Press 'i' to enter insert mode and start typing.".to_owned(),
            Some(PaletteColor::DarkGray),
            false,
            true,
        );
        push_text(&mut out, "Press '?' for help.".to_owned(), Some(PaletteColor::DarkGray), false, true);
        assert(lines_view(out@) =~= chat_text(messages@, *state, wrap_width));
        return out;
    }
    let shown: usize = if state.scroll_offset < messages.len() { messages.len() - state.scroll_offset } else { 0 };
    let ghost shown_seq = shown_messages(messages@, state.scroll_offset as nat);
    assert(lines_view(out@) =~= Seq::<LineView>::empty());
    let mut j: usize = 0;
    while j < shown
        invariant
            j <= shown <= messages@.len(),
            shown_seq == messages@.take(shown as int),
            lines_view(out@) == messages_lines(shown_seq.take(j as int), *state, wrap_width),
        decreases shown - j,
    {
        let m = &messages[j];
        let wrapped = wrap_text(m.content.as_str(), wrap_width);
        let lines = chat_message_lines(m, &wrapped, state);
        let ghost before = lines_view(out@);
        let ghost mv = lines_view(lines@);
        let mut k: usize = 0;
        while k < lines.len()
            invariant
                k <= lines@.len(),
                mv == lines_view(lines@),
                lines_view(out@) == before + mv.take(k as int),
            decreases lines.len() - k,
        {
            let x = &lines[k];
            push_text(&mut out, x.text.clone(), x.color, x.bold, x.italic);
            assert(mv.take(k + 1) =~= mv.take(k as int).push(mv[k as int]));
            k += 1;
        }
        assert(mv.take(lines@.len() as int) =~= mv);
        assert(shown_seq.take(j + 1).drop_last() =~= shown_seq.take(j as int));
        assert(shown_seq.take(j + 1).last() == messages@[j as int]);
        j += 1;
    }
    assert(shown_seq.take(shown as int) =~= shown_seq);
    out
}

} // verus!
