//! What the swarm panel shows: its lines of text, each with a colour and a
//! weight, from the agents and the age of the last update.
use vstd::prelude::*;
use crate::json::{json_i64_exec, signed_decimal};
use crate::text::{chars_of, decimal, push_char, push_decimal, push_str, string_of};
use crate::tui::subsystems::{AgentInfo, AgentStatus, PaletteColor};

verus! {

/// Text of a panel in one style: its colour (the default where there is
/// none), and whether it is bold or italic. A line of the swarm panel is one
/// such text.
#[derive(Debug, Clone, PartialEq, Eq)]
pub struct StyledText {
    pub text: String,
    pub color: Option<PaletteColor>,
    pub bold: bool,
    pub italic: bool,
}

/// Styled text, by its characters.
pub type LineView = (Seq<char>, Option<PaletteColor>, bool, bool);

/// The view of styled text.
pub open spec fn line_view(l: StyledText) -> LineView {
    (l.text@, l.color, l.bold, l.italic)
}

/// An empty line in the default style.
pub open spec fn blank() -> LineView {
    (Seq::empty(), None, false, false)
}

/// The colour and the symbol of an agent's status.
pub open spec fn status_style(s: AgentStatus) -> (PaletteColor, Seq<char>) {
    match s {
        AgentStatus::Idle => (PaletteColor::DarkGray, "○"@),
        AgentStatus::Running => (PaletteColor::Yellow, "●"@),
        AgentStatus::Done => (PaletteColor::Green, "✓"@),
        AgentStatus::Failed => (PaletteColor::Red, "✗"@),
    }
}

/// `n` times the character `c`.
pub open spec fn repeat(c: char, n: nat) -> Seq<char> {
    Seq::new(n, |i: int| c)
}

/// The width of a progress bar, in cells.
pub const PROGRESS_WIDTH: usize = 12;

/// The filled cells of a progress bar at `progress` percent.
pub open spec fn filled_cells(progress: u8) -> nat {
    let f = (progress as nat * PROGRESS_WIDTH as nat) / 100;
    if f > PROGRESS_WIDTH { PROGRESS_WIDTH as nat } else { f }
}

/// A progress bar at `progress` percent: filled and empty cells between
/// brackets, then the percentage.
pub open spec fn progress_bar(progress: u8) -> Seq<char> {
    let f = filled_cells(progress);
    "  ["@ + repeat('█', f) + repeat('░', (PROGRESS_WIDTH - f) as nat) + "] "@ + decimal(progress as nat) + "%"@
}

/// The line of an agent's task, where it has one.
pub open spec fn task_lines(a: AgentInfo) -> Seq<LineView> {
    match a.current_task {
        Some(t) => seq![("  Task: "@ + t@, Some(PaletteColor::Gray), false, false)],
        None => Seq::empty(),
    }
}

/// The lines of one agent: name and model, progress, task where there is
/// one, role, and a blank line.
pub open spec fn agent_lines(a: AgentInfo) -> Seq<LineView> {
    let (color, symbol) = status_style(a.status);
    seq![
        (symbol + " "@ + a.name@ + " ("@ + a.model@ + ")"@, Some(color), true, false),
        (progress_bar(a.progress), Some(color), false, false),
    ] + task_lines(a) + seq![("  Role: "@ + a.role@, Some(PaletteColor::DarkGray), false, true), blank()]
}

/// The lines of the agents, in order.
pub open spec fn all_agent_lines(agents: Seq<AgentInfo>) -> Seq<LineView>
    decreases agents.len(),
{
    if agents.len() == 0 {
        Seq::empty()
    } else {
        all_agent_lines(agents.drop_last()) + agent_lines(agents.last())
    }
}

/// A grey italic line.
pub open spec fn hint(text: Seq<char>) -> LineView {
    (text, Some(PaletteColor::DarkGray), false, true)
}

/// What the swarm panel shows of `agents`, with the age in seconds of the
/// last update where there was one.
pub open spec fn swarm_lines(agents: Seq<AgentInfo>, update_age_secs: Option<i64>) -> Seq<LineView> {
    (if agents.len() == 0 {
        seq![
            hint("No active agents."@),
            hint(Seq::empty()),
            hint("Agent swarm will appear here when tasks are running."@),
            hint(Seq::empty()),
            hint("Press Ctrl+A to spawn a test agent."@),
        ]
    } else {
        seq![("Active Agents: "@ + decimal(agents.len()), Some(PaletteColor::Cyan), true, false), blank()]
            + all_agent_lines(agents)
    }) + match update_age_secs {
        Some(age) => seq![hint("Last update: "@ + signed_decimal(age as int) + "s ago"@)],
        None => Seq::empty(),
    }
}

fn styled(text: String, color: Option<PaletteColor>, bold: bool, italic: bool) -> (l: StyledText)
    ensures
        line_view(l) == (text@, color, bold, italic),
{
    StyledText { text, color, bold, italic }
}

fn push_line(out: &mut Vec<StyledText>, l: StyledText)
    ensures
        final(out)@.map_values(|x: StyledText| line_view(x)) == old(out)@.map_values(|x: StyledText| line_view(x)).push(
            line_view(l),
        ),
{
    out.push(l);
    assert(out@.map_values(|x: StyledText| line_view(x)) =~= old(out)@.map_values(|x: StyledText| line_view(x)).push(
        line_view(l),
    ));
}

fn push_repeat(s: &mut String, c: char, n: usize)
    ensures
        final(s)@ == old(s)@ + repeat(c, n as nat),
{
    let mut i: usize = 0;
    while i < n
        invariant
            i <= n,
            s@ == old(s)@ + repeat(c, i as nat),
        decreases n - i,
    {
        push_char(s, c);
        assert(old(s)@ + repeat(c, (i + 1) as nat) =~= old(s)@ + repeat(c, i as nat) + seq![c]);
        i += 1;
    }
}

fn progress_bar_exec(progress: u8) -> (r: String)
    ensures
        r@ == progress_bar(progress),
{
    let scaled: usize = (progress as usize) * PROGRESS_WIDTH / 100;
    let filled: usize = if scaled > PROGRESS_WIDTH { PROGRESS_WIDTH } else { scaled };
    let mut r = String::new();
    push_str(&mut r, "  [");
    push_repeat(&mut r, '█', filled);
    push_repeat(&mut r, '░', PROGRESS_WIDTH - filled);
    push_str(&mut r, "] ");
    push_decimal(&mut r, progress as u64);
    push_str(&mut r, "%");
    assert(filled == filled_cells(progress));
    r
}

fn push_agent_lines(out: &mut Vec<StyledText>, a: &AgentInfo)
    ensures
        final(out)@.map_values(|x: StyledText| line_view(x)) == old(out)@.map_values(|x: StyledText| line_view(x))
            + agent_lines(*a),
{
    let ghost before = old(out)@.map_values(|x: StyledText| line_view(x));
    let (color, symbol) = match a.status {
        AgentStatus::Idle => (PaletteColor::DarkGray, "○"),
        AgentStatus::Running => (PaletteColor::Yellow, "●"),
        AgentStatus::Done => (PaletteColor::Green, "✓"),
        AgentStatus::Failed => (PaletteColor::Red, "✗"),
    };
    assert((color, symbol@) == status_style(a.status));
    let mut head = String::new();
    push_str(&mut head, symbol);
    push_str(&mut head, " ");
    push_str(&mut head, a.name.as_str());
    push_str(&mut head, " (");
    push_str(&mut head, a.model.as_str());
    push_str(&mut head, ")");
    push_line(out, styled(head, Some(color), true, false));
    push_line(out, styled(progress_bar_exec(a.progress), Some(color), false, false));
    let ghost mid = out@.map_values(|x: StyledText| line_view(x));
    match &a.current_task {
        Some(t) => {
            let mut line = String::new();
            push_str(&mut line, "  Task: ");
            push_str(&mut line, t.as_str());
            push_line(out, styled(line, Some(PaletteColor::Gray), false, false));
        },
        None => {},
    }
    let ghost with_task = out@.map_values(|x: StyledText| line_view(x));
    let mut role = String::new();
    push_str(&mut role, "  Role: ");
    push_str(&mut role, a.role.as_str());
    push_line(out, styled(role, Some(PaletteColor::DarkGray), false, true));
    push_line(out, styled(String::new(), None, false, false));
    proof {
        let (c, sym) = status_style(a.status);
        let first = seq![
            (sym + " "@ + a.name@ + " ("@ + a.model@ + ")"@, Some(c), true, false),
            (progress_bar(a.progress), Some(c), false, false),
        ];
        let task_part = task_lines(*a);
        let last = seq![("  Role: "@ + a.role@, Some(PaletteColor::DarkGray), false, true), blank()];
        assert(mid =~= before + first);
        assert(with_task =~= before + first + task_part);
        assert(out@.map_values(|x: StyledText| line_view(x)) =~= before + (first + task_part + last));
    }
}

fn push_hint(out: &mut Vec<StyledText>, text: &str)
    ensures
        final(out)@.map_values(|x: StyledText| line_view(x)) == old(out)@.map_values(|x: StyledText| line_view(x)).push(
            hint(text@),
        ),
{
    push_line(out, styled(text.to_owned(), Some(PaletteColor::DarkGray), false, true));
}

/// The lines of the swarm panel for `agents`, with the age in seconds of the
/// last update where there was one.
pub fn swarm_panel_lines(agents: &Vec<AgentInfo>, update_age_secs: Option<i64>) -> (r: Vec<StyledText>)
    ensures
        r@.map_values(|x: StyledText| line_view(x)) == swarm_lines(agents@, update_age_secs),
{
    let mut out: Vec<StyledText> = Vec::new();
    assert(out@.map_values(|x: StyledText| line_view(x)) =~= Seq::<LineView>::empty());
    let ghost expected = swarm_lines(agents@, None);
    if agents.len() == 0 {
        push_hint(&mut out, "No active agents.");
        push_hint(&mut out, "");
        push_hint(&mut out, "Agent swarm will appear here when tasks are running.");
        push_hint(&mut out, "");
        push_hint(&mut out, "Press Ctrl+A to spawn a test agent.");
        proof {
            reveal_strlit("");
            assert(""@ =~= Seq::<char>::empty());
            assert(out@.map_values(|x: StyledText| line_view(x)) =~= seq![
                hint("No active agents."@),
                hint(Seq::empty()),
                hint("Agent swarm will appear here when tasks are running."@),
                hint(Seq::empty()),
                hint("Press Ctrl+A to spawn a test agent."@),
            ]);
            assert(out@.map_values(|x: StyledText| line_view(x)) =~= expected);
        }
    } else {
        let mut head = String::new();
        push_str(&mut head, "Active Agents: ");
        push_decimal(&mut head, agents.len() as u64);
        push_line(&mut out, styled(head, Some(PaletteColor::Cyan), true, false));
        push_line(&mut out, styled(String::new(), None, false, false));
        let ghost top = out@.map_values(|x: StyledText| line_view(x));
        let mut i: usize = 0;
        while i < agents.len()
            invariant
                i <= agents@.len(),
                out@.map_values(|x: StyledText| line_view(x)) == top + all_agent_lines(agents@.take(i as int)),
            decreases agents.len() - i,
        {
            push_agent_lines(&mut out, &agents[i]);
            assert(agents@.take(i + 1).drop_last() =~= agents@.take(i as int));
            assert(top + all_agent_lines(agents@.take(i as int)) + agent_lines(agents@[i as int]) =~= top
                + all_agent_lines(agents@.take(i + 1)));
            i += 1;
        }
        assert(agents@.take(agents@.len() as int) =~= agents@);
        assert(out@.map_values(|x: StyledText| line_view(x)) =~= expected);
    }
    let ghost body = out@.map_values(|x: StyledText| line_view(x));
    match update_age_secs {
        Some(age) => {
            let mut line = String::new();
            push_str(&mut line, "Last update: ");
            let d = json_i64_exec(age);
            push_str(&mut line, string_of(d.as_slice()).as_str());
            push_str(&mut line, "s ago");
            push_line(&mut out, styled(line, Some(PaletteColor::DarkGray), false, true));
        },
        None => {},
    }
    proof {
        let footer: Seq<LineView> = match update_age_secs {
            Some(age) => seq![hint("Last update: "@ + signed_decimal(age as int) + "s ago"@)],
            None => Seq::empty(),
        };
        assert(out@.map_values(|x: StyledText| line_view(x)) =~= body + footer);
        assert(expected + Seq::<LineView>::empty() =~= expected);
    }
    out
}

} // verus!
