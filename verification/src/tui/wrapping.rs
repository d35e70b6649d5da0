//! Text laid out for the panels: lines wrapped to a width (by `textwrap`),
//! and the time of day of a timestamp.
use vstd::prelude::*;
use crate::text::{digit_char, push_char, push_str};

verus! {

/// The lines `textwrap::wrap` cuts `text` into for `width` columns.
pub uninterp spec fn wrapped_lines(text: Seq<char>, width: usize) -> Seq<Seq<char>>;

/// `textwrap::wrap(text, width)` with its default options: the lines of
/// `text` wrapped at `width` columns. What they are is named, not stated.
#[verifier::external_body]
pub(crate) fn wrap_text(text: &str, width: usize) -> (r: Vec<String>)
    ensures
        r@.map_values(|s: String| s@) == wrapped_lines(text@, width),
{
    textwrap::wrap(text, width).into_iter().map(|line| line.into_owned()).collect()
}

/// Milliseconds in a day.
pub const DAY_MS: i64 = 86_400_000;

/// `n` as two digits (`n` below 100).
pub open spec fn two_digits(n: nat) -> Seq<char> {
    seq![digit_char(n / 10), digit_char(n % 10)]
}

/// `n` as three digits (`n` below 1000).
pub open spec fn three_digits(n: nat) -> Seq<char> {
    seq![digit_char(n / 100), digit_char((n / 10) % 10), digit_char(n % 10)]
}

/// The time of day, in UTC, of the Unix time `ms` in milliseconds:
/// `HH:MM:SS`, then `.mmm` where `with_millis` holds (chrono's `%H:%M:%S`
/// and `%H:%M:%S%.3f`).
pub open spec fn clock_time(ms: i64, with_millis: bool) -> Seq<char> {
    let t = (ms as int % DAY_MS as int) as nat;
    two_digits(t / 3_600_000) + ":"@ + two_digits((t / 60_000) % 60) + ":"@ + two_digits((t / 1000) % 60) + if with_millis {
        "."@ + three_digits(t % 1000)
    } else {
        Seq::empty()
    }
}

fn push_digits(s: &mut String, n: u64, count: usize)
    requires
        count == 2 ==> n < 100,
        count == 3 ==> n < 1000,
        count == 2 || count == 3,
    ensures
        final(s)@ == old(s)@ + if count == 2 { two_digits(n as nat) } else { three_digits(n as nat) },
{
    if count == 3 {
        push_char(s, digit_char_exec(n / 100));
        push_char(s, digit_char_exec((n / 10) % 10));
    } else {
        push_char(s, digit_char_exec(n / 10));
    }
    push_char(s, digit_char_exec(n % 10));
    assert(final(s)@ =~= old(s)@ + if count == 2 { two_digits(n as nat) } else { three_digits(n as nat) });
}

fn digit_char_exec(d: u64) -> (c: char)
    requires
        d < 10,
    ensures
        c == digit_char(d as nat),
{
    if d == 0 { '0' } else if d == 1 { '1' } else if d == 2 { '2' } else if d == 3 { '3' } else if d == 4 { '4' }
    else if d == 5 { '5' } else if d == 6 { '6' } else if d == 7 { '7' } else if d == 8 { '8' } else { '9' }
}

/// The milliseconds of `ms` since the start of its day (UTC).
fn day_millis(ms: i64) -> (t: u64)
    ensures
        t == (ms as int % DAY_MS as int),
        t < DAY_MS,
{
    let d: u64 = 86_400_000;
    if ms >= 0 {
        (ms as u64) % d
    } else {
        let k: u128 = (-(ms as i128)) as u128;
        let r: u64 = (k % (d as u128)) as u64;
        proof {
            let q = k as int / d as int;
            assert(k as int == q * d as int + r as int) by {
                vstd::arithmetic::div_mod::lemma_fundamental_div_mod(k as int, d as int);
            }
            if r == 0 {
                vstd::arithmetic::div_mod::lemma_fundamental_div_mod_converse(ms as int, d as int, -q, 0);
            } else {
                assert(ms as int == (-q - 1) * d as int + (d - r) as int) by (nonlinear_arith)
                    requires
                        ms as int == -(k as int),
                        k as int == q * d as int + r as int,
                ;
                vstd::arithmetic::div_mod::lemma_fundamental_div_mod_converse(ms as int, d as int, -q - 1, (d - r) as int);
            }
        }
        if r == 0 {
            0
        } else {
            d - r
        }
    }
}

/// The time of day of `ms`, as `clock_time` says.
pub fn clock_time_exec(ms: i64, with_millis: bool) -> (r: String)
    ensures
        r@ == clock_time(ms, with_millis),
{
    let t = day_millis(ms);
    let mut r = String::new();
    push_digits(&mut r, t / 3_600_000, 2);
    push_str(&mut r, ":");
    push_digits(&mut r, (t / 60_000) % 60, 2);
    push_str(&mut r, ":");
    push_digits(&mut r, (t / 1000) % 60, 2);
    if with_millis {
        push_str(&mut r, ".");
        push_digits(&mut r, t % 1000, 3);
    }
    assert(r@ =~= clock_time(ms, with_millis));
    r
}

} // verus!
