//! What the Buddy prompt does with a line the user typed.
use vstd::prelude::*;
use crate::text::{chars_of, string_of, trim, trim_exec};
use crate::tui::subsystems::eq_str;

verus! {

/// A line read at Buddy's prompt.
#[derive(Debug, Clone, PartialEq, Eq)]
pub enum CliCommand {
    /// Nothing but whitespace: ask again.
    Skip,
    /// `quit` or `exit`: say goodbye and stop.
    Quit,
    /// Anything else: the trimmed text, for Buddy to answer.
    Say(String),
}

/// Reads a line typed at the prompt: blank lines are skipped, `quit` and
/// `exit` (around whitespace) end the conversation, and anything else is said
/// to Buddy, trimmed.
pub fn read_command(line: &str) -> (r: CliCommand)
    ensures
        trim(line@).len() == 0 ==> r == CliCommand::Skip,
        trim(line@) == "quit"@ || trim(line@) == "exit"@ ==> r == CliCommand::Quit,
        trim(line@).len() > 0 && trim(line@) != "quit"@ && trim(line@) != "exit"@ ==> (r matches CliCommand::Say(t) && t@ == trim(line@)),
{
    proof {
        reveal_strlit("quit");
        reveal_strlit("exit");
    }
    let cs = chars_of(line);
    let t = trim_exec(cs.as_slice());
    if t.len() == 0 {
        return CliCommand::Skip;
    }
    let s = string_of(t.as_slice());
    if eq_str(s.as_str(), "quit") || eq_str(s.as_str(), "exit") {
        CliCommand::Quit
    } else {
        CliCommand::Say(s)
    }
}

} // verus!
