//! What the dashboard's screen shows around the panels: whether the
//! terminal is too small, the session tabs, the agent list, the chat area,
//! the input box's title, the status bar and the placeholders of hidden
//! panels.
use vstd::prelude::*;
use crate::text::{decimal, push_char, push_decimal, push_str};
use crate::tui::log_view::lines_view;
use crate::tui::state::{AppState, InputMode, Message, MessageRole};
use crate::tui::subsystems::PaletteColor;
use crate::tui::swarm_view::{blank, line_view, LineView, StyledText};
use crate::tui::wrapping::{wrap_text, wrapped_lines};

verus! {

/// The smallest terminal the dashboard draws in.
pub const MIN_WIDTH: u16 = 60;
pub const MIN_HEIGHT: u16 = 15;

/// What is shown instead of the dashboard in a terminal too small for it.
pub const TOO_SMALL_MESSAGE: &'static str = "Terminal too small. Please resize to at least 60x15 for 5-panel dashboard.";

/// Whether a terminal of `width` by `height` cells is too small for the
/// dashboard.
pub fn terminal_too_small(width: u16, height: u16) -> (r: bool)
    ensures
        r == (height < MIN_HEIGHT || width < MIN_WIDTH),
{
    height < MIN_HEIGHT || width < MIN_WIDTH
}

fn push_text(out: &mut Vec<StyledText>, text: String, color: Option<PaletteColor>, bold: bool, italic: bool)
    ensures
        lines_view(final(out)@) == lines_view(old(out)@).push((text@, color, bold, italic)),
{
    out.push(StyledText { text, color, bold, italic });
    assert(lines_view(out@) =~= lines_view(old(out)@).push((text@, color, bold, italic)));
}

/// The tab of session `i` of `a`: its name, highlighted where it is the
/// active one.
pub open spec fn tab_view(a: AppState, i: int) -> LineView {
    if i == a.active_session {
        (a.sessions@[i].name@, Some(PaletteColor::Cyan), true, false)
    } else {
        (a.sessions@[i].name@, Some(PaletteColor::Gray), false, false)
    }
}

/// The session tabs of the header.
pub fn header_tabs(app: &AppState) -> (r: Vec<StyledText>)
    ensures
        lines_view(r@) == Seq::new(app.sessions@.len(), |i: int| tab_view(*app, i)),
{
    let ghost target = Seq::new(app.sessions@.len(), |i: int| tab_view(*app, i));
    let mut out: Vec<StyledText> = Vec::new();
    let mut i: usize = 0;
    while i < app.sessions.len()
        invariant
            i <= app.sessions@.len(),
            target == Seq::new(app.sessions@.len(), |k: int| tab_view(*app, k)),
            lines_view(out@) == target.take(i as int),
        decreases app.sessions.len() - i,
    {
        let name = app.sessions[i].name.clone();
        if i == app.active_session {
            push_text(&mut out, name, Some(PaletteColor::Cyan), true, false);
        } else {
            push_text(&mut out, name, Some(PaletteColor::Gray), false, false);
        }
        assert(target.take(i + 1) =~= target.take(i as int).push(target[i as int]));
        i += 1;
    }
    assert(target.take(app.sessions@.len() as int) =~= target);
    out
}

/// The entry of agent `i` in the agent list: marked and highlighted where
/// it is the selected one.
pub open spec fn agent_item_view(a: AppState, i: int) -> LineView {
    if i == a.selected_agent_index {
        ("► "@ + a.available_agents@[i]@, Some(PaletteColor::Cyan), true, false)
    } else {
        ("  "@ + a.available_agents@[i]@, Some(PaletteColor::Gray), false, false)
    }
}

/// The entries of the agent list.
pub fn agent_selector_items(app: &AppState) -> (r: Vec<StyledText>)
    ensures
        lines_view(r@) == Seq::new(app.available_agents@.len(), |i: int| agent_item_view(*app, i)),
{
    let ghost target = Seq::new(app.available_agents@.len(), |i: int| agent_item_view(*app, i));
    let mut out: Vec<StyledText> = Vec::new();
    let mut i: usize = 0;
    while i < app.available_agents.len()
        invariant
            i <= app.available_agents@.len(),
            target == Seq::new(app.available_agents@.len(), |k: int| agent_item_view(*app, k)),
            lines_view(out@) == target.take(i as int),
        decreases app.available_agents.len() - i,
    {
        let mut t = String::new();
        if i == app.selected_agent_index {
            push_str(&mut t, "► ");
            push_str(&mut t, app.available_agents[i].as_str());
            push_text(&mut out, t, Some(PaletteColor::Cyan), true, false);
        } else {
            push_str(&mut t, "  ");
            push_str(&mut t, app.available_agents[i].as_str());
            push_text(&mut out, t, Some(PaletteColor::Gray), false, false);
        }
        assert(target.take(i + 1) =~= target.take(i as int).push(target[i as int]));
        i += 1;
    }
    assert(target.take(app.available_agents@.len() as int) =~= target);
    out
}

/// The title of the input box in `mode`, and its colour.
pub open spec fn input_title_view(mode: InputMode) -> (Seq<char>, PaletteColor) {
    match mode {
        InputMode::Normal => (">  Normal Mode"@, PaletteColor::Cyan),
        InputMode::Insert => (">  Insert Mode (Type Message)"@, PaletteColor::Green),
        InputMode::Command => (":  Command Mode"@, PaletteColor::Yellow),
    }
}

/// The title of the input box, and its colour.
pub fn input_title(mode: InputMode) -> (r: (String, PaletteColor))
    ensures
        (r.0@, r.1) == input_title_view(mode),
{
    match mode {
        InputMode::Normal => (">  Normal Mode".to_owned(), PaletteColor::Cyan),
        InputMode::Insert => (">  Insert Mode (Type Message)".to_owned(), PaletteColor::Green),
        InputMode::Command => (":  Command Mode".to_owned(), PaletteColor::Yellow),
    }
}

/// The name of an input mode in the status bar.
pub open spec fn mode_name(mode: InputMode) -> Seq<char> {
    match mode {
        InputMode::Normal => "Normal"@,
        InputMode::Insert => "Insert"@,
        InputMode::Command => "Command"@,
    }
}

/// The status bar: `Quitting...` on the way out, else the provider's
/// warning where there is one, else the session, provider, mode and agent
/// counts.
pub open spec fn status_view(a: AppState, provider: Seq<char>, warning: Option<Seq<char>>) -> Seq<char> {
    if a.should_quit {
        "Quitting..."@
    } else if warning is Some {
        warning->0
    } else {
        "Session: "@ + a.sessions@[a.active_session as int].name@ + " | Provider: "@ + provider + " | Mode: "@
            + mode_name(a.input_mode) + " | Agents: "@ + decimal(a.active_agents@.len()) + "/"@ + decimal(
            a.available_agents@.len(),
        )
    }
}

/// The status bar of `app`, with the router's provider and its warning.
pub fn status_text(app: &AppState, provider: &str, warning: Option<&str>) -> (r: String)
    requires
        app.wf(),
    ensures
        r@ == status_view(
            *app,
            provider@,
            match warning {
                Some(w) => Some(w@),
                None => None,
            },
        ),
{
    if app.should_quit {
        return "Quitting...".to_owned();
    }
    if let Some(w) = warning {
        return w.to_owned();
    }
    let mut s = String::new();
    push_str(&mut s, "Session: ");
    push_str(&mut s, app.sessions[app.active_session].name.as_str());
    push_str(&mut s, " | Provider: ");
    push_str(&mut s, provider);
    push_str(&mut s, " | Mode: ");
    push_str(
        &mut s,
        match app.input_mode {
            InputMode::Normal => "Normal",
            InputMode::Insert => "Insert",
            InputMode::Command => "Command",
        },
    );
    push_str(&mut s, " | Agents: ");
    push_decimal(&mut s, app.active_agents.len() as u64);
    push_str(&mut s, "/");
    push_decimal(&mut s, app.available_agents.len() as u64);
    s
}

/// The role line of a message in the chat area.
pub open spec fn area_role_line(r: MessageRole) -> LineView {
    match r {
        MessageRole::User => ("User: "@, Some(PaletteColor::Cyan), true, false),
        MessageRole::Assistant => ("Assistant: "@, Some(PaletteColor::Green), true, false),
        MessageRole::System => ("System: "@, Some(PaletteColor::Yellow), true, false),
    }
}

/// The messages the chat area shows: the last `scroll` ones where it is
/// scrolled, else all of them.
pub open spec fn area_messages(ms: Seq<Message>, scroll: nat) -> Seq<Message> {
    if scroll > 0 {
        ms.skip(if scroll < ms.len() { ms.len() - scroll } else { 0 })
    } else {
        ms
    }
}

/// The lines of the messages in the chat area, text wrapped at `width`.
pub open spec fn area_lines(ms: Seq<Message>, width: usize) -> Seq<LineView>
    decreases ms.len(),
{
    if ms.len() == 0 {
        Seq::empty()
    } else {
        area_lines(ms.drop_last(), width) + seq![area_role_line(ms.last().role)] + wrapped_lines(
            ms.last().content@,
            width,
        ).map_values(|l: Seq<char>| (l, Some(PaletteColor::White), false, false)) + seq![blank()]
    }
}

/// The lines of the chat area of `app` (its active session), text wrapped
/// at `wrap_width` columns.
pub fn chat_area_lines(app: &AppState, wrap_width: usize) -> (r: Vec<StyledText>)
    requires
        app.wf(),
    ensures
        lines_view(r@) == area_lines(area_messages(app.active_messages(), app.chat_scroll as nat), wrap_width),
{
    let ms = &app.sessions[app.active_session].messages;
    let start: usize = if app.chat_scroll > 0 && app.chat_scroll < ms.len() {
        ms.len() - app.chat_scroll
    } else {
        0
    };
    let ghost shown = area_messages(app.active_messages(), app.chat_scroll as nat);
    assert(shown =~= ms@.skip(start as int));
    let mut out: Vec<StyledText> = Vec::new();
    assert(lines_view(out@) =~= Seq::<LineView>::empty());
    let mut j: usize = start;
    while j < ms.len()
        invariant
            start <= j <= ms@.len(),
            shown == ms@.skip(start as int),
            lines_view(out@) == area_lines(shown.take(j - start), wrap_width),
        decreases ms.len() - j,
    {
        let m = &ms[j];
        let ghost before = lines_view(out@);
        match m.role {
            MessageRole::User => push_text(&mut out, "User: ".to_owned(), Some(PaletteColor::Cyan), true, false),
            MessageRole::Assistant => push_text(&mut out, "Assistant: ".to_owned(), Some(PaletteColor::Green), true, false),
            MessageRole::System => push_text(&mut out, "System: ".to_owned(), Some(PaletteColor::Yellow), true, false),
        }
        let wrapped = wrap_text(m.content.as_str(), wrap_width);
        let ghost wl = wrapped@.map_values(|s: String| s@).map_values(
            |l: Seq<char>| (l, Some(PaletteColor::White), false, false),
        );
        let ghost head = lines_view(out@);
        let mut k: usize = 0;
        while k < wrapped.len()
            invariant
                k <= wrapped@.len(),
                wl == wrapped@.map_values(|s: String| s@).map_values(
                    |l: Seq<char>| (l, Some(PaletteColor::White), false, false),
                ),
                lines_view(out@) == head + wl.take(k as int),
            decreases wrapped.len() - k,
        {
            push_text(&mut out, wrapped[k].clone(), Some(PaletteColor::White), false, false);
            assert(wl.take(k + 1) =~= wl.take(k as int).push(wl[k as int]));
            k += 1;
        }
        assert(wl.take(wrapped@.len() as int) =~= wl);
        push_text(&mut out, String::new(), None, false, false);
        proof {
            let t = shown.take(j + 1 - start);
            assert(t.drop_last() =~= shown.take(j - start));
            assert(t.last() == ms@[j as int]);
            assert(head =~= before + seq![area_role_line(m.role)]);
            assert(lines_view(out@) =~= area_lines(t, wrap_width));
        }
        j += 1;
    }
    assert(shown.take(ms@.len() - start) =~= shown);
    out
}

/// The names of the four side panels and the keys that toggle them.
pub open spec fn panel_name(i: int) -> Seq<char> {
    if i == 0 {
        "Swarm"@
    } else if i == 1 {
        "Cost"@
    } else if i == 2 {
        "Memory"@
    } else {
        "Logs"@
    }
}

/// The key that toggles side panel `i`.
pub open spec fn panel_key(i: int) -> char {
    if i == 0 {
        's'
    } else if i == 1 {
        'c'
    } else if i == 2 {
        'm'
    } else {
        'l'
    }
}

/// What a hidden side panel shows: its name, and the key that brings it back.
pub open spec fn placeholder_view(i: int) -> Seq<LineView> {
    seq![
        (panel_name(i) + " Panel"@, Some(PaletteColor::White), false, false),
        (Seq::empty(), Some(PaletteColor::White), false, false),
        ("(Press '"@ + seq![panel_key(i)] + "' to toggle)"@, Some(PaletteColor::White), false, false),
    ]
}

/// The placeholder of hidden side panel `index` (0 to 3: swarm, cost,
/// memory, logs), and its title.
pub fn panel_placeholder(index: usize) -> (r: (Vec<StyledText>, String))
    requires
        index < 4,
    ensures
        lines_view(r.0@) == placeholder_view(index as int),
        r.1@ == " "@ + panel_name(index as int) + " "@,
{
    let (name, key) = if index == 0 {
        ("Swarm", 's')
    } else if index == 1 {
        ("Cost", 'c')
    } else if index == 2 {
        ("Memory", 'm')
    } else {
        ("Logs", 'l')
    };
    assert(name@ == panel_name(index as int) && key == panel_key(index as int));
    let mut out: Vec<StyledText> = Vec::new();
    let mut t = String::new();
    push_str(&mut t, name);
    push_str(&mut t, " Panel");
    assert(t@ =~= panel_name(index as int) + " Panel"@);
    push_text(&mut out, t, Some(PaletteColor::White), false, false);
    push_text(&mut out, String::new(), Some(PaletteColor::White), false, false);
    let mut t = String::new();
    push_str(&mut t, "(Press '");
    push_char(&mut t, key);
    push_str(&mut t, "' to toggle)");
    assert(t@ =~= "(Press '"@ + seq![panel_key(index as int)] + "' to toggle)"@);
    push_text(&mut out, t, Some(PaletteColor::White), false, false);
    let mut title = String::new();
    push_str(&mut title, " ");
    push_str(&mut title, name);
    push_str(&mut title, " ");
    assert(title@ =~= " "@ + panel_name(index as int) + " "@);
    assert(lines_view(out@) =~= placeholder_view(index as int));
    (out, title)
}

/// What a side panel whose own state says it is hidden shows.
pub const HIDDEN_PANEL_TEXT: &'static str = "Panel hidden. Press toggle key to show.";

/// The title of side panel `i` while its own state hides it.
pub open spec fn hidden_title_view(i: int) -> Seq<char> {
    " "@ + panel_name(i) + " (press '"@ + seq![panel_key(i)] + "' to toggle) "@
}

/// The text of side panel `index` (0 to 3: swarm, cost, memory, logs)
/// while its own state hides it, and its title.
pub fn hidden_panel(index: usize) -> (r: (StyledText, String))
    requires
        index < 4,
    ensures
        line_view(r.0) == (HIDDEN_PANEL_TEXT@, Some(PaletteColor::DarkGray), false, true),
        r.1@ == hidden_title_view(index as int),
{
    let (name, key) = if index == 0 {
        ("Swarm", 's')
    } else if index == 1 {
        ("Cost", 'c')
    } else if index == 2 {
        ("Memory", 'm')
    } else {
        ("Logs", 'l')
    };
    assert(name@ == panel_name(index as int) && key == panel_key(index as int));
    let mut title = String::new();
    push_str(&mut title, " ");
    push_str(&mut title, name);
    push_str(&mut title, " (press '");
    push_char(&mut title, key);
    push_str(&mut title, "' to toggle) ");
    assert(title@ =~= hidden_title_view(index as int));
    (StyledText { text: HIDDEN_PANEL_TEXT.to_owned(), color: Some(PaletteColor::DarkGray), bold: false, italic: true }, title)
}

} // verus!
