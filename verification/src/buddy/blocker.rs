//! Blockers: decisions Buddy waits for, growing more urgent with time.
use vstd::prelude::*;
use crate::clock::{duration_from_millis, duration_of_millis, unix_millis_now};
use crate::text::push_str;

verus! {

/// How urgent a blocker is.
#[derive(Debug, Clone, Copy, PartialEq, Eq, PartialOrd, Ord, Hash, Structural)]
pub enum BlockerSeverity {
    /// Can wait.
    Low,
    /// Starting to worry.
    Medium,
    /// Really needs an answer.
    High,
    /// Everything is stuck.
    Critical,
}

/// The rank of a severity: `Low` is 0, `Critical` is 3.
pub open spec fn severity_rank(s: BlockerSeverity) -> nat {
    match s {
        BlockerSeverity::Low => 0,
        BlockerSeverity::Medium => 1,
        BlockerSeverity::High => 2,
        BlockerSeverity::Critical => 3,
    }
}

/// The emoji of a severity.
pub open spec fn severity_emoji(s: BlockerSeverity) -> Seq<char> {
    match s {
        BlockerSeverity::Low => "⏳"@,
        BlockerSeverity::Medium => "🔔"@,
        BlockerSeverity::High => "⚠️"@,
        BlockerSeverity::Critical => "🚨"@,
    }
}

/// The description of a severity (Polish).
pub open spec fn severity_text(s: BlockerSeverity) -> Seq<char> {
    match s {
        BlockerSeverity::Low => "Czekam, nie ma pośpiechu"@,
        BlockerSeverity::Medium => "Przypominam — czekam na Twoją odpowiedź"@,
        BlockerSeverity::High => "Hej, naprawdę tego potrzebuję żeby iść dalej"@,
        BlockerSeverity::Critical => "Stoimy w miejscu. Potrzebuję decyzji TERAZ."@,
    }
}

impl BlockerSeverity {
    /// The emoji for the severity.
    pub fn emoji(&self) -> (r: &'static str)
        ensures
            r@ == severity_emoji(*self),
    {
        match self {
            BlockerSeverity::Low => "⏳",
            BlockerSeverity::Medium => "🔔",
            BlockerSeverity::High => "⚠️",
            BlockerSeverity::Critical => "🚨",
        }
    }

    /// A description (Polish).
    pub fn describe(&self) -> (r: &'static str)
        ensures
            r@ == severity_text(*self),
    {
        match self {
            BlockerSeverity::Low => "Czekam, nie ma pośpiechu",
            BlockerSeverity::Medium => "Przypominam — czekam na Twoją odpowiedź",
            BlockerSeverity::High => "Hej, naprawdę tego potrzebuję żeby iść dalej",
            BlockerSeverity::Critical => "Stoimy w miejscu. Potrzebuję decyzji TERAZ.",
        }
    }

    /// The rank of the severity (0 for `Low` up to 3 for `Critical`).
    pub fn rank(&self) -> (r: u8)
        ensures
            r == severity_rank(*self),
    {
        match self {
            BlockerSeverity::Low => 0,
            BlockerSeverity::Medium => 1,
            BlockerSeverity::High => 2,
            BlockerSeverity::Critical => 3,
        }
    }
}


/// Milliseconds in an hour.
pub const MILLIS_PER_HOUR: u64 = 3_600_000;

/// The severity after waiting `elapsed_ms` with an escalation every
/// `hours` hours: one step up per completed escalation period, capped at
/// `Critical`.
pub open spec fn severity_after(elapsed_ms: u64, hours: u32) -> BlockerSeverity {
    let escalations = (elapsed_ms / MILLIS_PER_HOUR) / (hours as u64);
    if escalations == 0 {
        BlockerSeverity::Low
    } else if escalations == 1 {
        BlockerSeverity::Medium
    } else if escalations == 2 {
        BlockerSeverity::High
    } else {
        BlockerSeverity::Critical
    }
}

/// `a - b` as `u64` arithmetic wraps it.
pub open spec fn wrapping_sub(a: u64, b: u64) -> u64 {
    if a >= b { (a - b) as u64 } else { (a - b + 0x1_0000_0000_0000_0000) as u64 }
}

/// A task or decision Buddy is waiting for.
#[derive(Debug, Clone)]
pub struct Blocker {
    /// What is blocking.
    pub what: String,
    /// When the wait began (Unix milliseconds).
    pub since_ms: u64,
    /// How urgent the blocker is now.
    pub severity: BlockerSeverity,
    /// Hours between escalations (4 by default).
    pub escalation_hours: u32,
}

/// The response for a blocker: emoji, description and what is blocking.
pub open spec fn blocker_response(severity: BlockerSeverity, what: Seq<char>) -> Seq<char> {
    severity_emoji(severity) + " "@ + severity_text(severity) + " — blokada: \""@ + what + "\""@
}

impl Blocker {
    /// A blocker that starts waiting now, with low severity and an
    /// escalation every 4 hours.
    pub fn new(what: &str) -> (b: Self)
        ensures
            b.what@ == what@,
            b.severity == BlockerSeverity::Low,
            b.escalation_hours == 4,
    {
        Self::new_at(what, unix_millis_now())
    }

    /// A blocker whose wait began at `now_ms`, with low severity and an
    /// escalation every 4 hours.
    pub fn new_at(what: &str, now_ms: u64) -> (b: Self)
        ensures
            b.what@ == what@,
            b.since_ms == now_ms,
            b.severity == BlockerSeverity::Low,
            b.escalation_hours == 4,
    {
        Blocker { what: what.to_string(), since_ms: now_ms, severity: BlockerSeverity::Low, escalation_hours: 4 }
    }

    /// A blocker that starts waiting now, escalating every `hours` hours.
    pub fn with_escalation(what: &str, hours: u32) -> (b: Self)
        ensures
            b.what@ == what@,
            b.severity == BlockerSeverity::Low,
            b.escalation_hours == hours,
    {
        let mut b = Self::new(what);
        b.escalation_hours = hours;
        b
    }

    /// Sets the severity for the wait up to `now_ms`.
    pub fn update_severity_at(&mut self, now_ms: u64)
        requires
            old(self).escalation_hours > 0,
        ensures
            final(self).severity == severity_after(wrapping_sub(now_ms, old(self).since_ms), old(self).escalation_hours),
            final(self).what == old(self).what,
            final(self).since_ms == old(self).since_ms,
            final(self).escalation_hours == old(self).escalation_hours,
    {
        let elapsed_hours = now_ms.wrapping_sub(self.since_ms) / MILLIS_PER_HOUR;
        let escalations = elapsed_hours / (self.escalation_hours as u64);
        self.severity = if escalations == 0 {
            BlockerSeverity::Low
        } else if escalations == 1 {
            BlockerSeverity::Medium
        } else if escalations == 2 {
            BlockerSeverity::High
        } else {
            BlockerSeverity::Critical
        };
    }

    /// Sets the severity for the wait up to now.
    pub fn update_severity(&mut self)
        requires
            old(self).escalation_hours > 0,
        ensures
            exists|now: u64| final(self).severity == severity_after(
                wrapping_sub(now, old(self).since_ms),
                old(self).escalation_hours,
            ),
            final(self).what == old(self).what,
            final(self).since_ms == old(self).since_ms,
            final(self).escalation_hours == old(self).escalation_hours,
    {
        let now = unix_millis_now();
        self.update_severity_at(now);
    }

    /// The response for the blocker's current severity.
    pub fn response(&self) -> (r: String)
        ensures
            r@ == blocker_response(self.severity, self.what@),
    {
        let mut s = String::new();
        push_str(&mut s, self.severity.emoji());
        push_str(&mut s, " ");
        push_str(&mut s, self.severity.describe());
        push_str(&mut s, " — blokada: \"");
        push_str(&mut s, self.what.as_str());
        push_str(&mut s, "\"");
        assert(s@ =~= blocker_response(self.severity, self.what@));
        s
    }

    /// How long the blocker has waited up to now.
    pub fn waiting_duration(&self) -> (d: std::time::Duration)
        ensures
            exists|now: u64| d == duration_of_millis(wrapping_sub(now, self.since_ms)),
    {
        let now = unix_millis_now();
        let elapsed = now.wrapping_sub(self.since_ms);
        assert(elapsed == wrapping_sub(now, self.since_ms));
        let d = duration_from_millis(elapsed);
        assert(d == duration_of_millis(wrapping_sub(now, self.since_ms)));
        d
    }
}

/// Severity never falls while the wait goes on: a later time gives at
/// least the same severity.
pub proof fn lemma_severity_monotone(e1: u64, e2: u64, hours: u32)
    requires
        e1 <= e2,
        hours > 0,
    ensures
        severity_rank(severity_after(e1, hours)) <= severity_rank(severity_after(e2, hours)),
{
    let h = hours as u64;
    assert(e1 / MILLIS_PER_HOUR <= e2 / MILLIS_PER_HOUR) by (nonlinear_arith)
        requires e1 <= e2;
    let a = e1 / MILLIS_PER_HOUR;
    let b = e2 / MILLIS_PER_HOUR;
    assert(a / h <= b / h) by (nonlinear_arith)
        requires a <= b, h > 0;
}

} // verus!
