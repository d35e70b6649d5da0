//! Terminal feedback for CLI agent sessions: the coloured status lines.
//!
//! Status lines go to stderr and the agent's answer to stdout; the lines
//! themselves are built here, and whoever prints them chooses the stream.
use vstd::prelude::*;
use crate::text::{decimal, push_decimal, push_decimal_u128, push_str};

verus! {

/// `s` wrapped in the ANSI escape with SGR code `code`, then a reset.
pub open spec fn ansi(code: Seq<char>, s: Seq<char>) -> Seq<char> {
    "\x1b["@ + code + "m"@ + s + "\x1b[0m"@
}

fn wrap_ansi(code: &str, s: &str) -> (r: String)
    ensures
        r@ == ansi(code@, s@),
{
    let mut r = String::new();
    push_str(&mut r, "\x1b[");
    push_str(&mut r, code);
    push_str(&mut r, "m");
    push_str(&mut r, s);
    push_str(&mut r, "\x1b[0m");
    assert(r@ =~= ansi(code@, s@));
    r
}

/// Colour helpers using ANSI escape codes.
pub trait Colorize {
    /// Cyan text.
    fn cyan(&self) -> String;

    /// Yellow text.
    fn yellow(&self) -> String;

    /// Green text.
    fn green(&self) -> String;

    /// Red text.
    fn red(&self) -> String;

    /// White text.
    fn white(&self) -> String;

    /// Bold text.
    fn bold(&self) -> String;
}

impl Colorize for str {
    fn cyan(&self) -> (r: String)
        ensures
            r@ == ansi("36"@, self@),
    {
        wrap_ansi("36", self)
    }

    fn yellow(&self) -> (r: String)
        ensures
            r@ == ansi("33"@, self@),
    {
        wrap_ansi("33", self)
    }

    fn green(&self) -> (r: String)
        ensures
            r@ == ansi("32"@, self@),
    {
        wrap_ansi("32", self)
    }

    fn red(&self) -> (r: String)
        ensures
            r@ == ansi("31"@, self@),
    {
        wrap_ansi("31", self)
    }

    fn white(&self) -> (r: String)
        ensures
            r@ == ansi("37"@, self@),
    {
        wrap_ansi("37", self)
    }

    fn bold(&self) -> (r: String)
        ensures
            r@ == ansi("1"@, self@),
    {
        wrap_ansi("1", self)
    }
}

/// The "thinking" status line.
pub fn thinking_line() -> (r: String)
    ensures
        r@ == ansi("36"@, "🤔 Thinking..."@),
{
    "🤔 Thinking...".cyan()
}

/// The line announcing a tool run: `[⚙️ Tool: <name>] Executing...` in yellow.
pub fn tool_start_line(tool_name: &str) -> (r: String)
    ensures
        r@ == ansi("33"@, "[⚙️ Tool: "@ + tool_name@ + "] Executing..."@),
{
    let mut s = String::new();
    push_str(&mut s, "[⚙️ Tool: ");
    push_str(&mut s, tool_name);
    push_str(&mut s, "] Executing...");
    s.as_str().yellow()
}

/// The status of a finished tool: `✓ Done (<ms>ms)` in green or
/// `❌ Failed (<ms>ms)` in red.
pub open spec fn tool_status(duration_ms: u64, success: bool) -> Seq<char> {
    if success {
        ansi("32"@, "✓ Done ("@ + decimal(duration_ms as nat) + "ms)"@)
    } else {
        ansi("31"@, "❌ Failed ("@ + decimal(duration_ms as nat) + "ms)"@)
    }
}

/// The line reporting a finished tool: `[⚙️ Tool: <name>] <status>`.
pub fn tool_done_line(tool_name: &str, duration_ms: u64, success: bool) -> (r: String)
    ensures
        r@ == "[⚙️ Tool: "@ + tool_name@ + "] "@ + tool_status(duration_ms, success),
{
    let mut inner = String::new();
    push_str(&mut inner, if success { "✓ Done (" } else { "❌ Failed (" });
    push_decimal(&mut inner, duration_ms);
    push_str(&mut inner, "ms)");
    let status = if success { inner.as_str().green() } else { inner.as_str().red() };
    let mut r = String::new();
    push_str(&mut r, "[⚙️ Tool: ");
    push_str(&mut r, tool_name);
    push_str(&mut r, "] ");
    push_str(&mut r, status.as_str());
    r
}

/// The agent's answer, white and bold.
pub fn agent_response_line(text: &str) -> (r: String)
    ensures
        r@ == ansi("1"@, ansi("37"@, text@)),
{
    let w = text.white();
    w.as_str().bold()
}

/// `true` or `false` as `bool`'s `Display` writes it.
pub open spec fn bool_text(b: bool) -> Seq<char> {
    if b { "true"@ } else { "false"@ }
}

/// The line for an LLM request (verbose mode), in cyan.
pub fn llm_request_line(provider: &str, model: &str, messages_count: usize) -> (r: String)
    ensures
        r@ == ansi(
            "36"@,
            "> LLM Request (provider="@ + provider@ + ", model="@ + model@ + ", messages="@ + decimal(
                messages_count as nat,
            ) + ")"@,
        ),
{
    let mut s = String::new();
    push_str(&mut s, "> LLM Request (provider=");
    push_str(&mut s, provider);
    push_str(&mut s, ", model=");
    push_str(&mut s, model);
    push_str(&mut s, ", messages=");
    push_decimal(&mut s, messages_count as u64);
    push_str(&mut s, ")");
    s.as_str().cyan()
}

/// The line for an LLM response (verbose mode), in cyan.
pub fn llm_response_line(provider: &str, model: &str, duration_ms: u128, success: bool) -> (r: String)
    ensures
        r@ == ansi(
            "36"@,
            "< LLM Response (provider="@ + provider@ + ", model="@ + model@ + ", success="@ + bool_text(success)
                + ", duration_ms="@ + decimal(duration_ms as nat) + ")"@,
        ),
{
    let mut s = String::new();
    push_str(&mut s, "< LLM Response (provider=");
    push_str(&mut s, provider);
    push_str(&mut s, ", model=");
    push_str(&mut s, model);
    push_str(&mut s, ", success=");
    push_str(&mut s, if success { "true" } else { "false" });
    push_str(&mut s, ", duration_ms=");
    push_decimal_u128(&mut s, duration_ms);
    push_str(&mut s, ")");
    s.as_str().cyan()
}

/// The line closing a turn (verbose mode), in cyan.
pub fn turn_complete_line() -> (r: String)
    ensures
        r@ == ansi("36"@, "< Complete"@),
{
    "< Complete".cyan()
}

} // verus!
