//! Panel states of the TUI, and the byte sizes the memory panel shows.
use vstd::prelude::*;
use crate::text::{decimal, digit_char, push_char, push_decimal, push_decimal_u128, push_str};
use crate::tui::subsystems::{LogLevel, LogLine, MemoryOperation};

verus! {

/// State of the chat panel.
#[derive(Debug, Clone)]
pub struct ChatPanelState {
    /// Vertical scroll offset.
    pub scroll_offset: usize,
    /// Whether to show timestamps.
    pub show_timestamps: bool,
    /// Whether to show which model answered.
    pub show_model: bool,
}

impl Default for ChatPanelState {
    /// At the newest message, with timestamps and models shown.
    fn default() -> (s: Self)
        ensures
            s.scroll_offset == 0,
            s.show_timestamps,
            s.show_model,
    {
        ChatPanelState { scroll_offset: 0, show_timestamps: true, show_model: true }
    }
}

/// State of the logs panel.
#[derive(Debug, Clone)]
pub struct LogsPanelState {
    /// Whether the panel is visible.
    pub visible: bool,
    /// The level filter.
    pub log_level: LogLevel,
    /// The lines kept.
    pub log_lines: Vec<LogLine>,
    /// The most lines kept.
    pub max_lines: usize,
    /// Scroll offset.
    pub scroll_offset: usize,
}

impl Default for LogsPanelState {
    /// Hidden, at `Info`, empty, keeping up to 200 lines.
    fn default() -> (s: Self)
        ensures
            !s.visible,
            s.log_level == LogLevel::Info,
            s.log_lines@.len() == 0,
            s.max_lines == 200,
            s.scroll_offset == 0,
    {
        LogsPanelState { visible: false, log_level: LogLevel::Info, log_lines: Vec::new(), max_lines: 200, scroll_offset: 0 }
    }
}

/// State of the memory panel.
#[derive(Debug, Clone)]
pub struct MemoryPanelState {
    /// Whether the panel is visible.
    pub visible: bool,
    /// The memory backend.
    pub backend: String,
    /// How many memories are stored.
    pub total_memories: usize,
    /// Storage size in bytes.
    pub storage_bytes: u64,
    /// Recent operations.
    pub recent_operations: Vec<MemoryOperation>,
}

impl Default for MemoryPanelState {
    /// Hidden and empty.
    fn default() -> (s: Self)
        ensures
            !s.visible,
            s.backend@.len() == 0,
            s.total_memories == 0,
            s.storage_bytes == 0,
            s.recent_operations@.len() == 0,
    {
        MemoryPanelState {
            visible: false,
            backend: String::new(),
            total_memories: 0,
            storage_bytes: 0,
            recent_operations: Vec::new(),
        }
    }
}

/// State of the swarm panel.
#[derive(Debug, Clone)]
pub struct SwarmPanelState {
    /// Whether the panel is visible.
    pub visible: bool,
    /// When it was last updated (Unix milliseconds), if ever.
    pub last_update: Option<i64>,
    /// Refresh interval in seconds.
    pub refresh_interval_secs: u64,
}

impl Default for SwarmPanelState {
    /// Hidden, never updated, refreshing every second.
    fn default() -> (s: Self)
        ensures
            !s.visible,
            s.last_update is None,
            s.refresh_interval_secs == 1,
    {
        SwarmPanelState { visible: false, last_update: None, refresh_interval_secs: 1 }
    }
}

/// `2^e`.
pub open spec fn pow2(e: nat) -> nat
    decreases e,
{
    if e == 0 { 1 } else { 2 * pow2((e - 1) as nat) }
}

/// Bits of `b` beyond the 53 that a double holds.
pub open spec fn ulp_exp(b: nat) -> nat
    decreases b,
{
    if b < 0x20_0000_0000_0000 { 0 } else { 1 + ulp_exp(b / 2) }
}

/// `n / d` rounded to the nearest integer, ties to even.
pub open spec fn round_half_even(n: nat, d: nat) -> nat {
    let q = n / d;
    let r = n % d;
    if 2 * r < d {
        q
    } else if 2 * r > d {
        q + 1
    } else if q % 2 == 0 {
        q
    } else {
        q + 1
    }
}

/// The integer that `b as f64` holds: `b` rounded to 53 significant bits,
/// ties to even.
pub open spec fn f64_value(b: nat) -> nat {
    round_half_even(b, pow2(ulp_exp(b))) * pow2(ulp_exp(b))
}

/// `b as f64 / unit as f64` in hundredths, rounded as `{:.2}` rounds: to
/// the nearest, ties to even. (`unit` is a power of two, so the division
/// is exact.)
pub open spec fn hundredths(b: nat, unit: nat) -> nat {
    round_half_even(f64_value(b) * 100, unit)
}

/// `h` hundredths written with two decimals.
pub open spec fn two_decimals(h: nat) -> Seq<char> {
    decimal(h / 100) + "."@ + seq![digit_char((h % 100) / 10), digit_char(h % 10)]
}

/// Bytes in a kilobyte, megabyte, gigabyte and terabyte.
pub const KB: u64 = 1024;
pub const MB: u64 = 1_048_576;
pub const GB: u64 = 1_073_741_824;
pub const TB: u64 = 1_099_511_627_776;

/// A byte count as the memory panel shows it: in the largest unit it
/// reaches, with two decimals, or in bytes below a kilobyte.
pub open spec fn human_bytes(b: u64) -> Seq<char> {
    if b >= TB {
        two_decimals(hundredths(b as nat, TB as nat)) + " TB"@
    } else if b >= GB {
        two_decimals(hundredths(b as nat, GB as nat)) + " GB"@
    } else if b >= MB {
        two_decimals(hundredths(b as nat, MB as nat)) + " MB"@
    } else if b >= KB {
        two_decimals(hundredths(b as nat, KB as nat)) + " KB"@
    } else {
        decimal(b as nat) + " B"@
    }
}

fn round_half_even_exec(n: u128, d: u128) -> (r: u128)
    requires
        d > 0,
        n / d + 1 <= u128::MAX,
    ensures
        r == round_half_even(n as nat, d as nat),
{
    let q = n / d;
    let r = n % d;
    if r < d - r {
        q
    } else if r > d - r {
        q + 1
    } else if q % 2 == 0 {
        q
    } else {
        q + 1
    }
}

proof fn lemma_pow2_unfold(e: nat)
    ensures
        pow2(e + 1) == 2 * pow2(e),
{
    assert(pow2(e + 1) == 2 * pow2(((e + 1) - 1) as nat));
}

/// `b as f64`, as the integer it holds.
fn f64_value_exec(b: u64) -> (f: u128)
    ensures
        f == f64_value(b as nat),
        f <= b as nat + 4096,
{
    let mut t: u64 = b;
    let mut d: u64 = 1;
    while t >= 0x20_0000_0000_0000
        invariant
            pow2(ulp_exp(b as nat)) == d * pow2(ulp_exp(t as nat)),
            t as nat * d as nat <= b as nat,
            1 <= d < 4096,
        decreases t,
    {
        proof {
            assert(ulp_exp(t as nat) == 1 + ulp_exp((t / 2) as nat));
            lemma_pow2_unfold(ulp_exp((t / 2) as nat));
            let x = pow2(ulp_exp((t / 2) as nat));
            assert(d * (2 * x) == (2 * d) * x) by (nonlinear_arith);
            assert(d < 2048) by (nonlinear_arith)
                requires
                    t >= 0x20_0000_0000_0000,
                    t as nat * d as nat <= b as nat,
                    b <= u64::MAX,
            ;
            assert((t / 2) as nat * (2 * d) as nat <= t as nat * d as nat) by (nonlinear_arith)
                requires
                    d >= 1,
            ;
        }
        t = t / 2;
        d = d * 2;
    }
    assert(ulp_exp(t as nat) == 0);
    assert(pow2(0) == 1);
    assert(pow2(ulp_exp(t as nat)) == 1);
    let ghost pt = pow2(ulp_exp(t as nat));
    assert(d * pt == d) by (nonlinear_arith)
        requires
            pt == 1,
    ;
    assert(d as nat == pow2(ulp_exp(b as nat)));
    let dd = d as u128;
    let bb = b as u128;
    proof {
        assert(bb / dd + 1 <= u128::MAX) by (nonlinear_arith)
            requires
                dd >= 1,
                bb <= u64::MAX,
        ;
    }
    let q = round_half_even_exec(bb, dd);
    proof {
        assert(q * dd <= bb + dd) by (nonlinear_arith)
            requires
                dd >= 1,
                q <= bb / dd + 1,
        ;
    }
    q * dd
}

fn with_unit(b: u64, unit: u64, suffix: &str) -> (s: String)
    requires
        unit >= 1,
    ensures
        s@ == two_decimals(hundredths(b as nat, unit as nat)) + suffix@,
{
    let f = f64_value_exec(b);
    let n = f * 100;
    let u = unit as u128;
    proof {
        assert(n / u <= n) by (nonlinear_arith)
            requires
                u >= 1,
        ;
    }
    let h = round_half_even_exec(n, u);
    let mut s = String::new();
    push_decimal_u128(&mut s, h / 100);
    push_char(&mut s, '.');
    let d1 = ((h % 100) / 10) as u64;
    let d2 = (h % 10) as u64;
    push_decimal(&mut s, d1);
    push_decimal(&mut s, d2);
    push_str(&mut s, suffix);
    proof {
        reveal_strlit(".");
        assert(h == hundredths(b as nat, unit as nat));
        assert(decimal(d1 as nat) == seq![digit_char(d1 as nat)]);
        assert(decimal(d2 as nat) == seq![digit_char(d2 as nat)]);
        assert(s@ =~= two_decimals(hundredths(b as nat, unit as nat)) + suffix@);
    }
    s
}

/// A byte count in the largest unit it reaches (KB, MB, GB, TB of 1024),
/// with two decimals, or in bytes below a kilobyte.
pub fn bytes_to_human(bytes: u64) -> (s: String)
    ensures
        s@ == human_bytes(bytes),
{
    if bytes >= TB {
        with_unit(bytes, TB, " TB")
    } else if bytes >= GB {
        with_unit(bytes, GB, " GB")
    } else if bytes >= MB {
        with_unit(bytes, MB, " MB")
    } else if bytes >= KB {
        with_unit(bytes, KB, " KB")
    } else {
        let mut s = String::new();
        push_decimal(&mut s, bytes);
        push_str(&mut s, " B");
        s
    }
}

} // verus!
