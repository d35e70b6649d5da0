//! What the logs panel shows: the entries at least as severe as its filter,
//! minus the newest it is scrolled past, each as lines of styled text.
use vstd::prelude::*;
use crate::text::{push_str, string_of};
use crate::tui::panels::LogsPanelState;
use crate::tui::subsystems::{log_level_label, log_level_rank, LogLevel, LogLine, PaletteColor};
use crate::tui::swarm_view::{blank, hint, line_view, LineView, StyledText};
use crate::tui::wrapping::{clock_time, clock_time_exec, wrap_text, wrapped_lines};

verus! {

/// The colour a level is shown in.
pub open spec fn level_color(l: LogLevel) -> PaletteColor {
    match l {
        LogLevel::Error => PaletteColor::Red,
        LogLevel::Warn => PaletteColor::Yellow,
        LogLevel::Info => PaletteColor::Cyan,
        LogLevel::Debug => PaletteColor::DarkGray,
        LogLevel::Trace => PaletteColor::Gray,
    }
}

/// The entries at least as severe as `level`, in order.
pub open spec fn severe_enough(lines: Seq<LogLine>, level: LogLevel) -> Seq<LogLine>
    decreases lines.len(),
{
    if lines.len() == 0 {
        Seq::empty()
    } else {
        let prev = severe_enough(lines.drop_last(), level);
        if log_level_rank(lines.last().level) <= log_level_rank(level) {
            prev.push(lines.last())
        } else {
            prev
        }
    }
}

/// The entries shown: the severe enough ones without the newest `scroll`.
pub open spec fn shown_logs(lines: Seq<LogLine>, level: LogLevel, scroll: nat) -> Seq<LogLine> {
    let f = severe_enough(lines, level);
    f.take(if scroll < f.len() { f.len() - scroll } else { 0 })
}

/// The line of an entry's module, where it names one.
pub open spec fn module_lines(e: LogLine) -> Seq<LineView> {
    match e.module {
        Some(m) => seq![(m@ + ": "@, Some(PaletteColor::Cyan), false, true)],
        None => Seq::empty(),
    }
}

/// The lines of one entry whose message is laid out in `message_lines`:
/// the time, the level, the module where there is one, the message, a blank
/// line.
pub open spec fn entry_lines(e: LogLine, message_lines: Seq<Seq<char>>) -> Seq<LineView> {
    seq![
        ("["@ + clock_time(e.timestamp, true) + "]"@, Some(PaletteColor::DarkGray), false, true),
        (" "@ + log_level_label(e.level) + " "@, Some(level_color(e.level)), true, false),
    ] + module_lines(e) + message_lines.map_values(|l: Seq<char>| ("  "@ + l, Some(PaletteColor::White), false, false)) + seq![blank()]
}

/// The lines of the entries, their messages wrapped at `width` columns.
pub open spec fn entries_lines(es: Seq<LogLine>, width: usize) -> Seq<LineView>
    decreases es.len(),
{
    if es.len() == 0 {
        Seq::empty()
    } else {
        entries_lines(es.drop_last(), width) + entry_lines(es.last(), wrapped_lines(es.last().message@, width))
    }
}

/// What the logs panel shows of `s`, messages wrapped at `width` columns.
pub open spec fn logs_text(s: LogsPanelState, width: usize) -> Seq<LineView> {
    if severe_enough(s.log_lines@, s.log_level).len() == 0 {
        seq![
            hint("No logs to display."@),
            hint(Seq::empty()),
            hint("Logs will appear here as the system runs."@),
        ]
    } else {
        entries_lines(shown_logs(s.log_lines@, s.log_level, s.scroll_offset as nat), width)
    }
}

/// The view of lines of styled text.
pub open spec fn lines_view(v: Seq<StyledText>) -> Seq<LineView> {
    v.map_values(|x: StyledText| line_view(x))
}

fn push_text(out: &mut Vec<StyledText>, text: String, color: Option<PaletteColor>, bold: bool, italic: bool)
    ensures
        lines_view(final(out)@) == lines_view(old(out)@).push((text@, color, bold, italic)),
{
    out.push(StyledText { text, color, bold, italic });
    assert(lines_view(out@) =~= lines_view(old(out)@).push((text@, color, bold, italic)));
}

/// The lines of one entry, its message laid out in `message_lines`.
pub fn log_entry_lines(e: &LogLine, message_lines: &Vec<String>) -> (r: Vec<StyledText>)
    ensures
        lines_view(r@) == entry_lines(*e, message_lines@.map_values(|s: String| s@)),
{
    let mut out: Vec<StyledText> = Vec::new();
    let mut t = String::new();
    push_str(&mut t, "[");
    push_str(&mut t, clock_time_exec(e.timestamp, true).as_str());
    push_str(&mut t, "]");
    push_text(&mut out, t, Some(PaletteColor::DarkGray), false, true);
    let mut t = String::new();
    push_str(&mut t, " ");
    push_str(&mut t, e.level.as_str());
    push_str(&mut t, " ");
    push_text(&mut out, t, Some(e.level.color()), true, false);
    let ghost head = lines_view(out@);
    match &e.module {
        Some(m) => {
            let mut t = String::new();
            push_str(&mut t, m.as_str());
            push_str(&mut t, ": ");
            push_text(&mut out, t, Some(PaletteColor::Cyan), false, true);
        },
        None => {},
    }
    let ghost with_module = lines_view(out@);
    let ghost ml = message_lines@.map_values(|s: String| s@);
    let ghost body = ml.map_values(|l: Seq<char>| ("  "@ + l, Some(PaletteColor::White), false, false));
    let mut i: usize = 0;
    while i < message_lines.len()
        invariant
            i <= message_lines@.len(),
            ml == message_lines@.map_values(|s: String| s@),
            body == ml.map_values(|l: Seq<char>| ("  "@ + l, Some(PaletteColor::White), false, false)),
            lines_view(out@) == with_module + body.take(i as int),
        decreases message_lines.len() - i,
    {
        let mut t = String::new();
        push_str(&mut t, "  ");
        push_str(&mut t, message_lines[i].as_str());
        push_text(&mut out, t, Some(PaletteColor::White), false, false);
        assert(body.take(i + 1) =~= body.take(i as int).push(body[i as int]));
        i += 1;
    }
    assert(body.take(message_lines@.len() as int) =~= body);
    push_text(&mut out, String::new(), None, false, false);
    proof {
        let module_part = module_lines(*e);
        assert(with_module =~= head + module_part);
        assert(lines_view(out@) =~= entry_lines(*e, ml));
    }
    out
}

/// The lines of the logs panel for `state`, messages wrapped at
/// `wrap_width` columns.
pub fn logs_panel_lines(state: &LogsPanelState, wrap_width: usize) -> (r: Vec<StyledText>)
    ensures
        lines_view(r@) == logs_text(*state, wrap_width),
{
    let lines = &state.log_lines;
    let level_rank = state.log_level.rank();
    let mut kept: Vec<usize> = Vec::new();
    let ghost mut sel: Seq<LogLine> = Seq::empty();
    let mut i: usize = 0;
    while i < lines.len()
        invariant
            i <= lines@.len(),
            level_rank == log_level_rank(state.log_level),
            sel == severe_enough(lines@.take(i as int), state.log_level),
            kept@.len() == sel.len(),
            forall|k: int| 0 <= k < kept@.len() ==> #[trigger] kept@[k] < lines@.len() && lines@[kept@[k] as int] == sel[k],
        decreases lines.len() - i,
    {
        assert(lines@.take(i + 1).drop_last() =~= lines@.take(i as int));
        assert(lines@.take(i + 1).last() == lines@[i as int]);
        if lines[i].level.rank() <= level_rank {
            kept.push(i);
            proof {
                sel = sel.push(lines@[i as int]);
            }
        }
        i += 1;
    }
    assert(lines@.take(lines@.len() as int) =~= lines@);
    let mut out: Vec<StyledText> = Vec::new();
    if kept.len() == 0 {
        push_text(&mut out, "No logs to display.".to_owned(), Some(PaletteColor::DarkGray), false, true);
        push_text(&mut out, String::new(), Some(PaletteColor::DarkGray), false, true);
        push_text(&mut out, "Logs will appear here as the system runs.".to_owned(), Some(PaletteColor::DarkGray), false, true);
        assert(lines_view(out@) =~= logs_text(*state, wrap_width));
        return out;
    }
    let shown: usize = if state.scroll_offset < kept.len() { kept.len() - state.scroll_offset } else { 0 };
    let ghost shown_seq = shown_logs(lines@, state.log_level, state.scroll_offset as nat);
    assert(shown_seq =~= sel.take(shown as int));
    assert(lines_view(out@) =~= Seq::<LineView>::empty());
    let mut j: usize = 0;
    while j < shown
        invariant
            j <= shown <= kept@.len(),
            shown_seq == sel.take(shown as int),
            kept@.len() == sel.len(),
            forall|k: int| 0 <= k < kept@.len() ==> #[trigger] kept@[k] < lines@.len() && lines@[kept@[k] as int] == sel[k],
            lines_view(out@) == entries_lines(shown_seq.take(j as int), wrap_width),
        decreases shown - j,
    {
        let e = &lines[kept[j]];
        assert(kept@[j as int] < lines@.len());
        let wrapped = wrap_text(e.message.as_str(), wrap_width);
        let entry = log_entry_lines(e, &wrapped);
        let ghost before = lines_view(out@);
        let mut k: usize = 0;
        let ghost ev = lines_view(entry@);
        while k < entry.len()
            invariant
                k <= entry@.len(),
                ev == lines_view(entry@),
                lines_view(out@) == before + ev.take(k as int),
            decreases entry.len() - k,
        {
            let x = &entry[k];
            push_text(&mut out, x.text.clone(), x.color, x.bold, x.italic);
            assert(ev.take(k + 1) =~= ev.take(k as int).push(ev[k as int]));
            k += 1;
        }
        assert(ev.take(entry@.len() as int) =~= ev);
        assert(shown_seq.take(j + 1).drop_last() =~= shown_seq.take(j as int));
        assert(shown_seq.take(j + 1).last() == lines@[kept@[j as int] as int]);
        j += 1;
    }
    assert(shown_seq.take(shown as int) =~= shown_seq);
    out
}

} // verus!
