//! What the memory panel shows: the backend, its figures and the latest
//! operations, each line made of pieces of styled text.
use vstd::prelude::*;
use crate::text::{decimal, push_decimal, push_str};
use crate::tui::panels::{bytes_to_human, human_bytes, MemoryPanelState};
use crate::tui::subsystems::{memory_op_label, MemoryOpType, MemoryOperation, PaletteColor};
use crate::tui::swarm_view::{blank, line_view, LineView, StyledText};

verus! {

/// The most operations the panel lists.
pub const MAX_SHOWN_OPERATIONS: usize = 10;

/// The colour of an operation's label.
pub open spec fn op_color(op: MemoryOpType) -> PaletteColor {
    match op {
        MemoryOpType::Store => PaletteColor::Green,
        MemoryOpType::Recall => PaletteColor::Cyan,
        MemoryOpType::Search => PaletteColor::Yellow,
        MemoryOpType::Delete => PaletteColor::Red,
        MemoryOpType::Clear => PaletteColor::Magenta,
    }
}

/// A line of one piece.
pub open spec fn plain(text: Seq<char>, color: Option<PaletteColor>, bold: bool, italic: bool) -> Seq<LineView> {
    seq![(text, color, bold, italic)]
}

/// The line of an operation: a check or a cross, its label, its key (or
/// `(none)`).
pub open spec fn op_line(op: MemoryOperation) -> Seq<LineView> {
    seq![
        (if op.success { "✓"@ } else { "✗"@ }, Some(if op.success { PaletteColor::Green } else { PaletteColor::Red }), false, false),
        (" "@, None, false, false),
        (memory_op_label(op.op_type), Some(op_color(op.op_type)), true, false),
        (" "@, None, false, false),
        (
            match op.key {
                Some(k) => k@,
                None => "(none)"@,
            },
            Some(PaletteColor::White),
            false,
            true,
        ),
    ]
}

/// The lines of the latest operations, newest first, at most
/// `MAX_SHOWN_OPERATIONS` of them.
pub open spec fn latest_op_lines(ops: Seq<MemoryOperation>) -> Seq<Seq<LineView>> {
    let n = if ops.len() < MAX_SHOWN_OPERATIONS { ops.len() as int } else { MAX_SHOWN_OPERATIONS as int };
    Seq::new(n as nat, |i: int| op_line(ops[ops.len() - 1 - i]))
}

/// What the memory panel shows of `s`.
pub open spec fn memory_lines(s: MemoryPanelState) -> Seq<Seq<LineView>> {
    seq![
        plain("Backend: "@ + s.backend@, Some(PaletteColor::Cyan), true, false),
        seq![blank()],
        plain("Total Memories: "@ + decimal(s.total_memories as nat), Some(PaletteColor::Green), false, false),
        plain("Storage Size: "@ + human_bytes(s.storage_bytes), Some(PaletteColor::Yellow), false, false),
        seq![blank()],
    ] + if s.recent_operations@.len() == 0 {
        seq![plain("No recent operations."@, Some(PaletteColor::DarkGray), false, true)]
    } else {
        seq![plain("Recent Operations:"@, Some(PaletteColor::Cyan), true, false), seq![blank()]] + latest_op_lines(
            s.recent_operations@,
        )
    }
}

/// The view of a line of pieces.
pub open spec fn pieces_view(v: Vec<StyledText>) -> Seq<LineView> {
    v@.map_values(|x: StyledText| line_view(x))
}

fn piece(text: String, color: Option<PaletteColor>, bold: bool, italic: bool) -> (t: StyledText)
    ensures
        line_view(t) == (text@, color, bold, italic),
{
    StyledText { text, color, bold, italic }
}

fn one_piece(text: String, color: Option<PaletteColor>, bold: bool, italic: bool) -> (v: Vec<StyledText>)
    ensures
        pieces_view(v) == plain(text@, color, bold, italic),
{
    let mut v: Vec<StyledText> = Vec::new();
    v.push(piece(text, color, bold, italic));
    assert(pieces_view(v) =~= plain(text@, color, bold, italic));
    v
}

fn blank_line() -> (v: Vec<StyledText>)
    ensures
        pieces_view(v) == seq![blank()],
{
    let v = one_piece(String::new(), None, false, false);
    assert(pieces_view(v) =~= seq![blank()]);
    v
}

fn op_line_exec(op: &MemoryOperation) -> (v: Vec<StyledText>)
    ensures
        pieces_view(v) == op_line(*op),
{
    let mut v: Vec<StyledText> = Vec::new();
    let (sym, color) = if op.success {
        ("✓", PaletteColor::Green)
    } else {
        ("✗", PaletteColor::Red)
    };
    v.push(piece(sym.to_owned(), Some(color), false, false));
    v.push(piece(" ".to_owned(), None, false, false));
    v.push(piece(op.op_type.as_str().to_owned(), Some(op.op_type.color()), true, false));
    v.push(piece(" ".to_owned(), None, false, false));
    let key = match &op.key {
        Some(k) => k.clone(),
        None => "(none)".to_owned(),
    };
    v.push(piece(key, Some(PaletteColor::White), false, true));
    assert(pieces_view(v) =~= op_line(*op));
    v
}

/// The lines of the memory panel for `state`.
pub fn memory_panel_lines(state: &MemoryPanelState) -> (r: Vec<Vec<StyledText>>)
    ensures
        r@.map_values(|l: Vec<StyledText>| pieces_view(l)) == memory_lines(*state),
{
    let mut r: Vec<Vec<StyledText>> = Vec::new();
    let mut t = String::new();
    push_str(&mut t, "Backend: ");
    push_str(&mut t, state.backend.as_str());
    r.push(one_piece(t, Some(PaletteColor::Cyan), true, false));
    r.push(blank_line());
    let mut t = String::new();
    push_str(&mut t, "Total Memories: ");
    push_decimal(&mut t, state.total_memories as u64);
    r.push(one_piece(t, Some(PaletteColor::Green), false, false));
    let mut t = String::new();
    push_str(&mut t, "Storage Size: ");
    push_str(&mut t, bytes_to_human(state.storage_bytes).as_str());
    r.push(one_piece(t, Some(PaletteColor::Yellow), false, false));
    r.push(blank_line());
    let ghost head = r@.map_values(|l: Vec<StyledText>| pieces_view(l));
    let ops = &state.recent_operations;
    if ops.len() == 0 {
        r.push(one_piece("No recent operations.".to_owned(), Some(PaletteColor::DarkGray), false, true));
        assert(r@.map_values(|l: Vec<StyledText>| pieces_view(l)) =~= memory_lines(*state));
    } else {
        r.push(one_piece("Recent Operations:".to_owned(), Some(PaletteColor::Cyan), true, false));
        r.push(blank_line());
        let ghost top = r@.map_values(|l: Vec<StyledText>| pieces_view(l));
        let ghost target = latest_op_lines(ops@);
        let n: usize = if ops.len() < MAX_SHOWN_OPERATIONS { ops.len() } else { MAX_SHOWN_OPERATIONS };
        let mut i: usize = 0;
        while i < n
            invariant
                i <= n,
                n == target.len(),
                n <= ops@.len(),
                target == latest_op_lines(ops@),
                r@.map_values(|l: Vec<StyledText>| pieces_view(l)) == top + target.take(i as int),
            decreases n - i,
        {
            let line = op_line_exec(&ops[ops.len() - 1 - i]);
            let ghost before = r@.map_values(|l: Vec<StyledText>| pieces_view(l));
            r.push(line);
            assert(r@.map_values(|l: Vec<StyledText>| pieces_view(l)) =~= before.push(pieces_view(line)));
            assert(target.take(i + 1) =~= target.take(i as int).push(target[i as int]));
            i += 1;
        }
        assert(target.take(n as int) =~= target);
        assert(r@.map_values(|l: Vec<StyledText>| pieces_view(l)) =~= memory_lines(*state));
    }
    r
}

} // verus!
