//! Zed command syntax: `[[ZED:open:path/to/file:42]]` and friends.
use vstd::prelude::*;
use crate::json::{json_str, json_str_exec, json_u64_exec, member, member_exec, object, object_exec, opt_member};
use crate::text::{
    chars_of, decimal, ends_with_exec, join, join_exec, lines, lines_exec, eq_chars, lemma_split_char_nonempty, parse_u32, parse_u32_exec,
    seqs_of, slice_chars, split_char, split_char_exec, starts_with_exec, string_of, trim, trim_exec,
};

verus! {

/// Position in a file (line and column).
#[derive(Debug, Clone, Copy, PartialEq, Eq, Structural)]
pub struct Position {
    pub line: u32,
    pub column: u32,
}

/// Notification level for Zed.
#[derive(Debug, Clone, Copy, PartialEq, Eq, Structural)]
pub enum NotifyLevel {
    Info,
    Warning,
    Error,
}

/// Zed Editor UI command that the agent can request.
#[derive(Debug, Clone)]
pub enum ZedCommand {
    /// Open a file, optionally at a line and column.
    OpenFile { path: String, line: Option<u32>, column: Option<u32> },
    /// Scroll to a line of the current file.
    ScrollTo { line: u32, column: Option<u32> },
    /// Highlight a range of text.
    Highlight { start: Position, end: Position },
    /// Show a notification.
    Notify { message: String, level: Option<NotifyLevel> },
}

/// A `ZedCommand` with its strings taken as character sequences.
pub enum ZedCommandView {
    OpenFile { path: Seq<char>, line: Option<u32>, column: Option<u32> },
    ScrollTo { line: u32, column: Option<u32> },
    Highlight { start: Position, end: Position },
    Notify { message: Seq<char>, level: Option<NotifyLevel> },
}

impl View for ZedCommand {
    type V = ZedCommandView;

    open spec fn view(&self) -> ZedCommandView {
        match self {
            ZedCommand::OpenFile { path, line, column } => ZedCommandView::OpenFile {
                path: path@,
                line: *line,
                column: *column,
            },
            ZedCommand::ScrollTo { line, column } => ZedCommandView::ScrollTo {
                line: *line,
                column: *column,
            },
            ZedCommand::Highlight { start, end } => ZedCommandView::Highlight {
                start: *start,
                end: *end,
            },
            ZedCommand::Notify { message, level } => ZedCommandView::Notify {
                message: message@,
                level: *level,
            },
        }
    }
}

impl DeepView for ZedCommand {
    type V = ZedCommandView;

    open spec fn deep_view(&self) -> ZedCommandView {
        self@
    }
}

impl ZedCommand {
    /// An `OpenFile` command without line or column.
    pub fn open_file(path: String) -> (c: Self)
        ensures
            c@ == (ZedCommandView::OpenFile { path: path@, line: None, column: None }),
    {
        ZedCommand::OpenFile { path, line: None, column: None }
    }

    /// An `OpenFile` command at a line.
    pub fn open_file_at_line(path: String, line: u32) -> (c: Self)
        ensures
            c@ == (ZedCommandView::OpenFile { path: path@, line: Some(line), column: None }),
    {
        ZedCommand::OpenFile { path, line: Some(line), column: None }
    }

    /// A `ScrollTo` command without column.
    pub fn scroll_to(line: u32) -> (c: Self)
        ensures
            c@ == (ZedCommandView::ScrollTo { line, column: None }),
    {
        ZedCommand::ScrollTo { line, column: None }
    }

    /// A `Highlight` command over whole lines (column 0).
    pub fn highlight(start_line: u32, end_line: u32) -> (c: Self)
        ensures
            c@ == (ZedCommandView::Highlight {
                start: Position { line: start_line, column: 0 },
                end: Position { line: end_line, column: 0 },
            }),
    {
        ZedCommand::Highlight {
            start: Position { line: start_line, column: 0 },
            end: Position { line: end_line, column: 0 },
        }
    }
}

/// `parts[k]` parsed as `u32`, or `None` where there is no such part.
pub open spec fn part_u32(parts: Seq<Seq<char>>, k: int) -> Option<u32> {
    if k < parts.len() { parse_u32(parts[k]) } else { None }
}

/// `parts[k]`, or the empty text where there is no such part.
pub open spec fn part_or_empty(parts: Seq<Seq<char>>, k: int) -> Seq<char> {
    if k < parts.len() { parts[k] } else { Seq::empty() }
}

/// The command named by the `':'`-separated parts of a command body.
pub open spec fn command_of_parts(parts: Seq<Seq<char>>) -> Option<ZedCommandView> {
    let verb = parts[0];
    if verb == "open"@ {
        if parts.len() < 2 {
            None
        } else {
            Some(ZedCommandView::OpenFile {
                path: parts[1],
                line: part_u32(parts, 2),
                column: part_u32(parts, 3),
            })
        }
    } else if verb == "scroll"@ {
        match part_u32(parts, 1) {
            Some(line) => Some(ZedCommandView::ScrollTo { line, column: part_u32(parts, 2) }),
            None => None,
        }
    } else if verb == "highlight"@ {
        match (part_u32(parts, 1), part_u32(parts, 2)) {
            (Some(s), Some(e)) => Some(ZedCommandView::Highlight {
                start: Position { line: s, column: 0 },
                end: Position { line: e, column: 0 },
            }),
            _ => None,
        }
    } else if verb == "info"@ || verb == "notify"@ {
        Some(ZedCommandView::Notify { message: part_or_empty(parts, 1), level: Some(NotifyLevel::Info) })
    } else if verb == "warn"@ || verb == "warning"@ {
        Some(ZedCommandView::Notify { message: part_or_empty(parts, 1), level: Some(NotifyLevel::Warning) })
    } else if verb == "error"@ {
        Some(ZedCommandView::Notify { message: part_or_empty(parts, 1), level: Some(NotifyLevel::Error) })
    } else {
        None
    }
}

/// The command written by `text`: after trimming, `[[ZED:` + body + `]]`,
/// the body split at `':'` into a verb and its arguments.
pub open spec fn zed_command_of(text: Seq<char>) -> Option<ZedCommandView> {
    let t = trim(text);
    if "[[ZED:"@.is_prefix_of(t) && "]]"@.is_suffix_of(t) {
        command_of_parts(split_char(t.subrange(6, t.len() - 2), ':'))
    } else {
        None
    }
}

fn part_u32_exec(parts: &Vec<Vec<char>>, k: usize) -> (r: Option<u32>)
    ensures
        r == part_u32(seqs_of(parts@), k as int),
{
    if k < parts.len() {
        assert(seqs_of(parts@)[k as int] == parts@[k as int]@);
        parse_u32_exec(parts[k].as_slice())
    } else {
        None
    }
}

fn part_or_empty_exec(parts: &Vec<Vec<char>>, k: usize) -> (r: String)
    ensures
        r@ == part_or_empty(seqs_of(parts@), k as int),
{
    if k < parts.len() {
        assert(seqs_of(parts@)[k as int] == parts@[k as int]@);
        string_of(parts[k].as_slice())
    } else {
        String::new()
    }
}

fn is_word(part: &Vec<char>, word: &str) -> (r: bool)
    ensures
        r == (part@ == word@),
{
    let w = chars_of(word);
    eq_chars(part.as_slice(), w.as_slice())
}

fn command_of_parts_exec(parts: &Vec<Vec<char>>) -> (r: Option<ZedCommand>)
    requires
        parts@.len() >= 1,
    ensures
        r.deep_view() == command_of_parts(seqs_of(parts@)),
{
    let ghost p = seqs_of(parts@);
    assert(p[0] == parts@[0]@);
    let verb = &parts[0];
    if is_word(verb, "open") {
        if parts.len() < 2 {
            None
        } else {
            assert(p[1] == parts@[1]@);
            Some(ZedCommand::OpenFile {
                path: string_of(parts[1].as_slice()),
                line: part_u32_exec(parts, 2),
                column: part_u32_exec(parts, 3),
            })
        }
    } else if is_word(verb, "scroll") {
        match part_u32_exec(parts, 1) {
            Some(line) => Some(ZedCommand::ScrollTo { line, column: part_u32_exec(parts, 2) }),
            None => None,
        }
    } else if is_word(verb, "highlight") {
        let s = part_u32_exec(parts, 1);
        let e = part_u32_exec(parts, 2);
        match (s, e) {
            (Some(s), Some(e)) => Some(ZedCommand::Highlight {
                start: Position { line: s, column: 0 },
                end: Position { line: e, column: 0 },
            }),
            _ => None,
        }
    } else if is_word(verb, "info") || is_word(verb, "notify") {
        Some(ZedCommand::Notify { message: part_or_empty_exec(parts, 1), level: Some(NotifyLevel::Info) })
    } else if is_word(verb, "warn") || is_word(verb, "warning") {
        Some(ZedCommand::Notify { message: part_or_empty_exec(parts, 1), level: Some(NotifyLevel::Warning) })
    } else if is_word(verb, "error") {
        Some(ZedCommand::Notify { message: part_or_empty_exec(parts, 1), level: Some(NotifyLevel::Error) })
    } else {
        None
    }
}

/// Parses one Zed command from `text` (surrounding whitespace allowed);
/// `None` where `text` is not a command.
pub(crate) fn parse_zed_command_chars(text: &[char]) -> (r: Option<ZedCommand>)
    ensures
        r.deep_view() == zed_command_of(text@),
{
    let t = trim_exec(text);
    let open = chars_of("[[ZED:");
    let close = chars_of("]]");
    if !starts_with_exec(t.as_slice(), open.as_slice()) || !ends_with_exec(t.as_slice(), close.as_slice()) {
        return None;
    }
    proof {
        reveal_strlit("[[ZED:");
        reveal_strlit("]]");
        assert("[[ZED:"@[5] == ':');
        assert(t@.subrange(0, 6)[5] == t@[5]);
        let n = t@.len() as int;
        assert(t@.subrange(n - 2, n)[1] == t@[n - 1]);
        assert(t@.subrange(n - 2, n)[0] == t@[n - 2]);
        assert(t@[5] == ':');
        assert(t@[n - 1] == ']');
        assert(t@[n - 2] == ']');
    }
    let inner = slice_chars(t.as_slice(), 6, t.len() - 2);
    let parts = split_char_exec(inner.as_slice(), ':');
    proof {
        lemma_split_char_nonempty(inner@, ':');
    }
    command_of_parts_exec(&parts)
}

/// The command text `[[ZED:` + `body` + `]]` names what the body's parts
/// name.
proof fn lemma_command_text(body: Seq<char>)
    ensures
        zed_command_of("[[ZED:"@ + body + "]]"@) == command_of_parts(split_char(body, ':')),
{
    reveal_strlit("[[ZED:");
    reveal_strlit("]]");
    let t = "[[ZED:"@ + body + "]]"@;
    assert(t[0] == '[');
    assert(t.last() == ']');
    assert(crate::text::trim_start(t) == t);
    assert(crate::text::trim_end(t) == t);
    assert("[[ZED:"@ =~= t.subrange(0, 6));
    assert("]]"@ =~= t.subrange(t.len() - 2, t.len() as int));
    assert(t.subrange(6, t.len() - 2) =~= body);
}

/// Writing `[[ZED:open:<path>]]` for a path without `':'` and parsing it
/// gives back `ZedCommand::open_file(path)`.
pub proof fn lemma_open_file_round_trip(path: Seq<char>)
    requires
        forall|i: int| 0 <= i < path.len() ==> path[i] != ':',
    ensures
        zed_command_of("[[ZED:open:"@ + path + "]]"@) == Some(ZedCommandView::OpenFile { path, line: None, column: None }),
{
    reveal_strlit("[[ZED:open:");
    reveal_strlit("[[ZED:");
    reveal_strlit("open");
    assert("[[ZED:open:"@ + path =~= "[[ZED:"@ + ("open"@ + seq![':'] + path));
    lemma_command_text("open"@ + seq![':'] + path);
    crate::text::lemma_split_two("open"@, path, ':');
}

/// Writing `[[ZED:scroll:<line>]]` and parsing it gives back
/// `ZedCommand::scroll_to(line)`.
pub proof fn lemma_scroll_round_trip(line: u32)
    ensures
        zed_command_of("[[ZED:scroll:"@ + decimal(line as nat) + "]]"@) == Some(ZedCommandView::ScrollTo { line, column: None }),
{
    reveal_strlit("[[ZED:scroll:");
    reveal_strlit("[[ZED:");
    reveal_strlit("scroll");
    reveal_strlit("open");
    let d = decimal(line as nat);
    crate::text::lemma_decimal_digits(line as nat);
    crate::text::lemma_parse_decimal(line);
    assert forall|i: int| 0 <= i < d.len() implies d[i] != ':' by {
        assert(crate::text::is_digit(d[i]));
    }
    assert("[[ZED:scroll:"@ + d =~= "[[ZED:"@ + ("scroll"@ + seq![':'] + d));
    lemma_command_text("scroll"@ + seq![':'] + d);
    crate::text::lemma_split_two("scroll"@, d, ':');
    assert("scroll"@ != "open"@) by {
        assert("scroll"@[0] != "open"@[0]);
    }
}

/// Writing `[[ZED:highlight:<start>:<end>]]` and parsing it gives back
/// `ZedCommand::highlight(start, end)`.
pub proof fn lemma_highlight_round_trip(start: u32, end: u32)
    ensures
        zed_command_of("[[ZED:highlight:"@ + decimal(start as nat) + ":"@ + decimal(end as nat) + "]]"@)
            == Some(ZedCommandView::Highlight {
                start: Position { line: start, column: 0 },
                end: Position { line: end, column: 0 },
            }),
{
    reveal_strlit("[[ZED:highlight:");
    reveal_strlit("[[ZED:");
    reveal_strlit("highlight");
    reveal_strlit("scroll");
    reveal_strlit("open");
    reveal_strlit(":");
    let a = decimal(start as nat);
    let b = decimal(end as nat);
    crate::text::lemma_decimal_digits(start as nat);
    crate::text::lemma_decimal_digits(end as nat);
    crate::text::lemma_parse_decimal(start);
    crate::text::lemma_parse_decimal(end);
    assert forall|i: int| 0 <= i < a.len() implies a[i] != ':' by {
        assert(crate::text::is_digit(a[i]));
    }
    assert forall|i: int| 0 <= i < b.len() implies b[i] != ':' by {
        assert(crate::text::is_digit(b[i]));
    }
    let body = "highlight"@ + seq![':'] + a + seq![':'] + b;
    assert("[[ZED:highlight:"@ + a + ":"@ + b =~= "[[ZED:"@ + body);
    lemma_command_text(body);
    crate::text::lemma_split_three("highlight"@, a, b, ':');
    assert("highlight"@ != "open"@) by {
        assert("highlight"@[0] != "open"@[0]);
    }
    assert("highlight"@ != "scroll"@) by {
        assert("highlight"@[0] != "scroll"@[0]);
    }
}

/// Surrounding whitespace does not change what a line means: a line and the
/// line trimmed give the same command, or none.
pub proof fn lemma_command_ignores_trim(text: Seq<char>)
    ensures
        zed_command_of(trim(text)) == zed_command_of(text),
{
    crate::text::lemma_trim_idempotent(text);
}

/// Parses one Zed command from `text`; `None` where `text` is not a command.
pub fn parse_zed_command(text: &str) -> (r: Option<ZedCommand>)
    ensures
        r.deep_view() == zed_command_of(text@),
{
    let cs = chars_of(text);
    parse_zed_command_chars(cs.as_slice())
}


/// One pass over the lines of a response: the lines that are not commands,
/// and the commands, both in order.
pub open spec fn zed_scan(ls: Seq<Seq<char>>) -> (Seq<Seq<char>>, Seq<ZedCommandView>)
    decreases ls.len(),
{
    if ls.len() == 0 {
        (Seq::empty(), Seq::empty())
    } else {
        let prev = zed_scan(ls.drop_last());
        match zed_command_of(ls.last()) {
            Some(c) => (prev.0, prev.1.push(c)),
            None => (prev.0.push(ls.last()), prev.1),
        }
    }
}

/// The views of a list of commands.
pub open spec fn commands_view(cs: Seq<ZedCommand>) -> Seq<ZedCommandView> {
    cs.map_values(|c: ZedCommand| c@)
}

/// Splits an agent response into the text without its command lines and the
/// commands of those lines. Each line is tested for a command after
/// trimming; kept lines are kept untrimmed and joined with `'\n'`.
pub fn parse_zed_commands(response: &str) -> (r: (String, Vec<ZedCommand>))
    ensures
        r.0@ == join(zed_scan(lines(response@)).0, seq!['\n']),
        commands_view(r.1@) == zed_scan(lines(response@)).1,
{
    let cs = chars_of(response);
    let ls = lines_exec(cs.as_slice());
    let ghost l = lines(response@);
    let mut cleaned: Vec<Vec<char>> = Vec::new();
    let mut commands: Vec<ZedCommand> = Vec::new();
    let mut i: usize = 0;
    while i < ls.len()
        invariant
            seqs_of(ls@) == l,
            0 <= i <= ls.len(),
            seqs_of(cleaned@) == zed_scan(l.take(i as int)).0,
            commands_view(commands@) == zed_scan(l.take(i as int)).1,
        decreases ls.len() - i,
    {
        proof {
            assert(l.take(i + 1).drop_last() =~= l.take(i as int));
            assert(l.take(i + 1).last() == ls@[i as int]@);
        }
        match parse_zed_command_chars(ls[i].as_slice()) {
            Some(c) => {
                commands.push(c);
                assert(commands_view(commands@) =~= zed_scan(l.take(i + 1)).1);
            },
            None => {
                let line = slice_chars(ls[i].as_slice(), 0, ls[i].len());
                assert(ls@[i as int]@.subrange(0, ls@[i as int]@.len() as int) =~= ls@[i as int]@);
                cleaned.push(line);
                assert(seqs_of(cleaned@) =~= zed_scan(l.take(i + 1)).0);
            },
        }
        i = i + 1;
    }
    assert(l.take(ls@.len() as int) =~= l);
    let nl = vec!['\n'];
    let text = join_exec(&cleaned, nl.as_slice());
    assert(nl@ =~= seq!['\n']);
    (text, commands)
}


/// The JSON name of a notification level.
pub open spec fn level_name(l: NotifyLevel) -> Seq<char> {
    match l {
        NotifyLevel::Info => "info"@,
        NotifyLevel::Warning => "warning"@,
        NotifyLevel::Error => "error"@,
    }
}

/// A position as a JSON object.
pub open spec fn position_json(p: Position) -> Seq<char> {
    object(seq![member("column"@, decimal(p.column as nat)), member("line"@, decimal(p.line as nat))])
}

/// A command as the JSON object `serde_json` makes of it: tagged by
/// `"type"`, absent optional fields left out, keys in sorted order.
pub open spec fn command_json(c: ZedCommandView) -> Seq<char> {
    match c {
        ZedCommandView::OpenFile { path, line, column } => object(
            opt_member("column"@, column) + opt_member("line"@, line) + seq![
                member("path"@, json_str(path)),
                member("type"@, json_str("openFile"@)),
            ],
        ),
        ZedCommandView::ScrollTo { line, column } => object(
            opt_member("column"@, column) + seq![
                member("line"@, decimal(line as nat)),
                member("type"@, json_str("scrollTo"@)),
            ],
        ),
        ZedCommandView::Highlight { start, end } => object(
            seq![
                member("end"@, position_json(end)),
                member("start"@, position_json(start)),
                member("type"@, json_str("highlight"@)),
            ],
        ),
        ZedCommandView::Notify { message, level } => object(
            (match level {
                Some(l) => seq![member("level"@, json_str(level_name(l)))],
                None => Seq::empty(),
            }) + seq![
                member("message"@, json_str(message)),
                member("type"@, json_str("notify"@)),
            ],
        ),
    }
}

fn push_opt_member(members: &mut Vec<Vec<char>>, key: &str, v: Option<u32>)
    ensures
        seqs_of(final(members)@) == seqs_of(old(members)@) + opt_member(key@, v),
{
    match v {
        Some(n) => {
            let m = member_exec(key, json_u64_exec(n as u64));
            members.push(m);
            assert(seqs_of(members@) =~= seqs_of(old(members)@) + opt_member(key@, v));
        },
        None => {
            assert(seqs_of(members@) =~= seqs_of(old(members)@) + opt_member(key@, v));
        },
    }
}

fn push_member(members: &mut Vec<Vec<char>>, m: Vec<char>)
    ensures
        seqs_of(final(members)@) == seqs_of(old(members)@).push(m@),
{
    members.push(m);
    assert(seqs_of(members@) =~= seqs_of(old(members)@).push(m@));
}

fn str_json(s: &str) -> (r: Vec<char>)
    ensures
        r@ == json_str(s@),
{
    let cs = chars_of(s);
    json_str_exec(cs.as_slice())
}

fn position_json_exec(p: &Position) -> (r: Vec<char>)
    ensures
        r@ == position_json(*p),
{
    let mut members: Vec<Vec<char>> = Vec::new();
    push_member(&mut members, member_exec("column", json_u64_exec(p.column as u64)));
    push_member(&mut members, member_exec("line", json_u64_exec(p.line as u64)));
    assert(seqs_of(members@) =~= seq![member("column"@, decimal(p.column as nat)), member("line"@, decimal(p.line as nat))]);
    object_exec(&members)
}

impl ZedCommand {
    /// This command as a JSON object.
    pub fn to_json(&self) -> (r: Vec<char>)
        ensures
            r@ == command_json(self@),
    {
        let mut members: Vec<Vec<char>> = Vec::new();
        match self {
            ZedCommand::OpenFile { path, line, column } => {
                push_opt_member(&mut members, "column", *column);
                push_opt_member(&mut members, "line", *line);
                let pc = chars_of(path.as_str());
                push_member(&mut members, member_exec("path", json_str_exec(pc.as_slice())));
                push_member(&mut members, member_exec("type", str_json("openFile")));
                assert(seqs_of(members@) =~= opt_member("column"@, *column) + opt_member("line"@, *line) + seq![
                    member("path"@, json_str(path@)),
                    member("type"@, json_str("openFile"@)),
                ]);
            },
            ZedCommand::ScrollTo { line, column } => {
                push_opt_member(&mut members, "column", *column);
                push_member(&mut members, member_exec("line", json_u64_exec(*line as u64)));
                push_member(&mut members, member_exec("type", str_json("scrollTo")));
                assert(seqs_of(members@) =~= opt_member("column"@, *column) + seq![
                    member("line"@, decimal(*line as nat)),
                    member("type"@, json_str("scrollTo"@)),
                ]);
            },
            ZedCommand::Highlight { start, end } => {
                push_member(&mut members, member_exec("end", position_json_exec(end)));
                push_member(&mut members, member_exec("start", position_json_exec(start)));
                push_member(&mut members, member_exec("type", str_json("highlight")));
                assert(seqs_of(members@) =~= seq![
                    member("end"@, position_json(*end)),
                    member("start"@, position_json(*start)),
                    member("type"@, json_str("highlight"@)),
                ]);
            },
            ZedCommand::Notify { message, level } => {
                match level {
                    Some(l) => {
                        let name = match l {
                            NotifyLevel::Info => "info",
                            NotifyLevel::Warning => "warning",
                            NotifyLevel::Error => "error",
                        };
                        push_member(&mut members, member_exec("level", str_json(name)));
                    },
                    None => {},
                }
                let mc = chars_of(message.as_str());
                push_member(&mut members, member_exec("message", json_str_exec(mc.as_slice())));
                push_member(&mut members, member_exec("type", str_json("notify")));
                assert(seqs_of(members@) =~= (match *level {
                    Some(l) => seq![member("level"@, json_str(level_name(l)))],
                    None => Seq::<Seq<char>>::empty(),
                }) + seq![
                    member("message"@, json_str(message@)),
                    member("type"@, json_str("notify"@)),
                ]);
            },
        }
        object_exec(&members)
    }
}

} // verus!
