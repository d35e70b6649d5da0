//! Subsystem snapshots shown by the TUI panels: agents, memory operations
//! and log levels.
use vstd::prelude::*;
use crate::text::{all_ascii, ascii_upper, ascii_uppercase, to_uppercase, uppercase};

verus! {

/// A colour of the terminal palette.
#[derive(Debug, Clone, Copy, PartialEq, Eq, Structural)]
pub enum PaletteColor {
    Red,
    Green,
    Yellow,
    Cyan,
    Magenta,
    Gray,
    DarkGray,
    White,
}

/// Agent execution status.
#[derive(Debug, Clone, Copy, PartialEq, Eq, Structural)]
pub enum AgentStatus {
    Idle,
    Running,
    Done,
    Failed,
}

impl Default for AgentStatus {
    fn default() -> (s: Self)
        ensures
            s == AgentStatus::Idle,
    {
        AgentStatus::Idle
    }
}

/// Information about a single agent.
#[derive(Debug, Clone)]
pub struct AgentInfo {
    /// Agent unique id.
    pub id: String,
    /// Display name.
    pub name: String,
    /// The agent's role, such as planner.
    pub role: String,
    /// Model in use.
    pub model: String,
    /// Current task, if any.
    pub current_task: Option<String>,
    /// Task progress, 0 to 100.
    pub progress: u8,
    /// Execution status.
    pub status: AgentStatus,
    /// When the agent was created (Unix milliseconds).
    pub created_at: i64,
}

/// Type of memory operation.
#[derive(Debug, Clone, Copy, PartialEq, Eq, Structural)]
pub enum MemoryOpType {
    Store,
    Recall,
    Search,
    Delete,
    Clear,
}

/// The label of a memory operation.
pub open spec fn memory_op_label(op: MemoryOpType) -> Seq<char> {
    match op {
        MemoryOpType::Store => "STORE"@,
        MemoryOpType::Recall => "RECALL"@,
        MemoryOpType::Search => "SEARCH"@,
        MemoryOpType::Delete => "DELETE"@,
        MemoryOpType::Clear => "CLEAR"@,
    }
}

impl MemoryOpType {
    /// The operation's label.
    pub fn as_str(&self) -> (r: &'static str)
        ensures
            r@ == memory_op_label(*self),
    {
        match self {
            MemoryOpType::Store => "STORE",
            MemoryOpType::Recall => "RECALL",
            MemoryOpType::Search => "SEARCH",
            MemoryOpType::Delete => "DELETE",
            MemoryOpType::Clear => "CLEAR",
        }
    }

    /// The colour the operation is shown in.
    pub fn color(self) -> (c: PaletteColor)
        ensures
            c == match self {
                MemoryOpType::Store => PaletteColor::Green,
                MemoryOpType::Recall => PaletteColor::Cyan,
                MemoryOpType::Search => PaletteColor::Yellow,
                MemoryOpType::Delete => PaletteColor::Red,
                MemoryOpType::Clear => PaletteColor::Magenta,
            },
    {
        match self {
            MemoryOpType::Store => PaletteColor::Green,
            MemoryOpType::Recall => PaletteColor::Cyan,
            MemoryOpType::Search => PaletteColor::Yellow,
            MemoryOpType::Delete => PaletteColor::Red,
            MemoryOpType::Clear => PaletteColor::Magenta,
        }
    }
}

/// A single memory operation, for the memory panel.
#[derive(Debug, Clone)]
pub struct MemoryOperation {
    /// What was done.
    pub op_type: MemoryOpType,
    /// The memory key, where there is one.
    pub key: Option<String>,
    /// Whether it succeeded.
    pub success: bool,
    /// When it happened (Unix milliseconds).
    pub timestamp: i64,
}

/// Log level, from the most to the least severe.
#[derive(Debug, Clone, Copy, PartialEq, Eq, PartialOrd, Ord, Structural)]
pub enum LogLevel {
    Error,
    Warn,
    Info,
    Debug,
    Trace,
}

/// The label of a log level.
pub open spec fn log_level_label(l: LogLevel) -> Seq<char> {
    match l {
        LogLevel::Error => "ERROR"@,
        LogLevel::Warn => "WARN"@,
        LogLevel::Info => "INFO"@,
        LogLevel::Debug => "DEBUG"@,
        LogLevel::Trace => "TRACE"@,
    }
}

/// The severity rank of a log level: 0 for `Error` up to 4 for `Trace`.
pub open spec fn log_level_rank(l: LogLevel) -> nat {
    match l {
        LogLevel::Error => 0,
        LogLevel::Warn => 1,
        LogLevel::Info => 2,
        LogLevel::Debug => 3,
        LogLevel::Trace => 4,
    }
}

/// The log level named by an uppercase label (`WARNING` too).
pub open spec fn log_level_of_label(u: Seq<char>) -> Option<LogLevel> {
    if u == "ERROR"@ {
        Some(LogLevel::Error)
    } else if u == "WARN"@ || u == "WARNING"@ {
        Some(LogLevel::Warn)
    } else if u == "INFO"@ {
        Some(LogLevel::Info)
    } else if u == "DEBUG"@ {
        Some(LogLevel::Debug)
    } else if u == "TRACE"@ {
        Some(LogLevel::Trace)
    } else {
        None
    }
}

/// Every label is ASCII and uppercase, so `from_str` reads each level's label
/// back as that level.
pub proof fn lemma_log_level_round_trip(l: LogLevel)
    ensures
        all_ascii(log_level_label(l)),
        log_level_of_label(ascii_uppercase(log_level_label(l))) == Some(l),
{
    reveal_strlit("ERROR");
    reveal_strlit("WARN");
    reveal_strlit("WARNING");
    reveal_strlit("INFO");
    reveal_strlit("DEBUG");
    reveal_strlit("TRACE");
    let t = log_level_label(l);
    assert(ascii_uppercase(t) =~= t);
    assert("ERROR"@.len() != "WARN"@.len() && "ERROR"@.len() != "WARNING"@.len() && "ERROR"@[0] != "INFO"@[0]);
    assert("DEBUG"@[0] != "ERROR"@[0] && "DEBUG"@.len() != "WARN"@.len() && "DEBUG"@.len() != "WARNING"@.len()
        && "DEBUG"@.len() != "INFO"@.len());
    assert("TRACE"@[0] != "ERROR"@[0] && "TRACE"@.len() != "WARN"@.len() && "TRACE"@.len() != "WARNING"@.len()
        && "TRACE"@.len() != "INFO"@.len() && "TRACE"@[0] != "DEBUG"@[0]);
    assert("INFO"@[0] != "WARN"@[0] && "INFO"@.len() != "WARNING"@.len());
}

/// On ASCII text `from_str` ignores case: the text uppercased is still
/// ASCII and reads as the same level.
pub proof fn lemma_log_level_any_case(s: Seq<char>)
    requires
        all_ascii(s),
    ensures
        all_ascii(ascii_uppercase(s)),
        log_level_of_label(ascii_uppercase(ascii_uppercase(s))) == log_level_of_label(ascii_uppercase(s)),
{
    let u = ascii_uppercase(s);
    assert(ascii_uppercase(u) =~= u);
}

impl LogLevel {
    /// The level's label.
    pub fn as_str(&self) -> (r: &'static str)
        ensures
            r@ == log_level_label(*self),
    {
        match self {
            LogLevel::Error => "ERROR",
            LogLevel::Warn => "WARN",
            LogLevel::Info => "INFO",
            LogLevel::Debug => "DEBUG",
            LogLevel::Trace => "TRACE",
        }
    }

    /// The level's severity rank (0 for `Error` up to 4 for `Trace`), the
    /// order in which levels compare.
    pub fn rank(&self) -> (r: u8)
        ensures
            r == log_level_rank(*self),
    {
        match self {
            LogLevel::Error => 0,
            LogLevel::Warn => 1,
            LogLevel::Info => 2,
            LogLevel::Debug => 3,
            LogLevel::Trace => 4,
        }
    }

    /// The colour the level is shown in.
    pub fn color(self) -> (c: PaletteColor)
        ensures
            c == match self {
                LogLevel::Error => PaletteColor::Red,
                LogLevel::Warn => PaletteColor::Yellow,
                LogLevel::Info => PaletteColor::Cyan,
                LogLevel::Debug => PaletteColor::DarkGray,
                LogLevel::Trace => PaletteColor::Gray,
            },
    {
        match self {
            LogLevel::Error => PaletteColor::Red,
            LogLevel::Warn => PaletteColor::Yellow,
            LogLevel::Info => PaletteColor::Cyan,
            LogLevel::Debug => PaletteColor::DarkGray,
            LogLevel::Trace => PaletteColor::Gray,
        }
    }

    /// The level named by `s`, in any case (`warning` for `Warn` too).
    pub fn from_str(s: &str) -> (r: Option<Self>)
        ensures
            r == log_level_of_label(uppercase(s@)),
            all_ascii(s@) ==> r == log_level_of_label(ascii_uppercase(s@)),
    {
        let u = to_uppercase(s);
        let us = u.as_str();
        proof {
            reveal_strlit("ERROR");
            reveal_strlit("WARN");
            reveal_strlit("WARNING");
            reveal_strlit("INFO");
            reveal_strlit("DEBUG");
            reveal_strlit("TRACE");
        }
        if eq_str(us, "ERROR") {
            Some(LogLevel::Error)
        } else if eq_str(us, "WARN") || eq_str(us, "WARNING") {
            Some(LogLevel::Warn)
        } else if eq_str(us, "INFO") {
            Some(LogLevel::Info)
        } else if eq_str(us, "DEBUG") {
            Some(LogLevel::Debug)
        } else if eq_str(us, "TRACE") {
            Some(LogLevel::Trace)
        } else {
            None
        }
    }
}

impl Default for LogLevel {
    fn default() -> (l: Self)
        ensures
            l == LogLevel::Info,
    {
        LogLevel::Info
    }
}

/// Two string slices hold the same characters.
pub fn eq_str(a: &str, b: &str) -> (r: bool)
    ensures
        r == (a@ == b@),
{
    let x = a.to_owned();
    let y = b.to_owned();
    x == y
}

/// A single log line.
#[derive(Debug, Clone)]
pub struct LogLine {
    /// Its level.
    pub level: LogLevel,
    /// The message.
    pub message: String,
    /// The module path, where there is one.
    pub module: Option<String>,
    /// When it was logged (Unix milliseconds).
    pub timestamp: i64,
}

} // verus!
