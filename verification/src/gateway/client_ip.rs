//! Which client a request is counted against: the text of forwarded
//! addresses, and the key chosen from them and the peer's address. Reading
//! the text as an IP address is left to the caller.
use vstd::prelude::*;
use crate::text::{chars_of, seqs_of, slice_chars, split_char, split_char_exec, string_of, trim, trim_exec};

verus! {

/// `s` without the characters of `set` at its start.
pub open spec fn strip_start_of(s: Seq<char>, set: Seq<char>) -> Seq<char>
    decreases s.len(),
{
    if s.len() > 0 && set.contains(s[0]) {
        strip_start_of(s.drop_first(), set)
    } else {
        s
    }
}

/// `s` without the characters of `set` at its end.
pub open spec fn strip_end_of(s: Seq<char>, set: Seq<char>) -> Seq<char>
    decreases s.len(),
{
    if s.len() > 0 && set.contains(s.last()) {
        strip_end_of(s.drop_last(), set)
    } else {
        s
    }
}

/// `str::trim_matches` with a set of characters.
pub open spec fn strip_of(s: Seq<char>, set: Seq<char>) -> Seq<char> {
    strip_end_of(strip_start_of(s, set), set)
}

fn in_set(c: char, set: &[char]) -> (r: bool)
    ensures
        r == set@.contains(c),
{
    let mut i: usize = 0;
    while i < set.len()
        invariant
            i <= set.len(),
            forall|k: int| 0 <= k < i ==> set@[k] != c,
        decreases set.len() - i,
    {
        if set[i] == c {
            return true;
        }
        i += 1;
    }
    false
}

/// `s` without the characters of `set` at either end.
pub fn strip_exec(s: &[char], set: &[char]) -> (r: Vec<char>)
    ensures
        r@ == strip_of(s@, set@),
{
    let mut a: usize = 0;
    assert(s@.subrange(0, s@.len() as int) =~= s@);
    while a < s.len() && in_set(s[a], set)
        invariant
            a <= s.len(),
            strip_start_of(s@, set@) == strip_start_of(s@.subrange(a as int, s@.len() as int), set@),
        decreases s.len() - a,
    {
        assert(s@.subrange(a as int, s@.len() as int).drop_first() =~= s@.subrange(a + 1, s@.len() as int));
        a += 1;
    }
    let ghost head = s@.subrange(a as int, s@.len() as int);
    assert(strip_start_of(head, set@) == head);
    let mut b: usize = s.len();
    assert(head.subrange(0, head.len() as int) =~= head);
    while b > a && in_set(s[b - 1], set)
        invariant
            a <= b <= s.len(),
            head == s@.subrange(a as int, s@.len() as int),
            strip_end_of(head, set@) == strip_end_of(s@.subrange(a as int, b as int), set@),
        decreases b - a,
    {
        assert(s@.subrange(a as int, b as int).drop_last() =~= s@.subrange(a as int, b - 1));
        b -= 1;
    }
    slice_chars(s, a, b)
}

/// The text of a client address: trimmed, stripped of quotes, trimmed.
pub open spec fn address_text(value: Seq<char>) -> Seq<char> {
    trim(strip_of(trim(value), seq!['"']))
}

/// The text of a client address in a header value, where there is any.
pub fn client_address_text(value: &str) -> (r: Option<String>)
    ensures
        match r {
            Some(t) => t@ == address_text(value@) && t@.len() > 0,
            None => address_text(value@).len() == 0,
        },
{
    let cs = chars_of(value);
    let t1 = trim_exec(cs.as_slice());
    let quote = vec!['"'];
    let t2 = strip_exec(t1.as_slice(), quote.as_slice());
    assert(quote@ =~= seq!['"']);
    let t3 = trim_exec(t2.as_slice());
    if t3.len() == 0 {
        None
    } else {
        Some(string_of(t3.as_slice()))
    }
}

/// An address text stripped of brackets (`[::1]` gives `::1`).
pub fn unbracketed(text: &str) -> (r: String)
    ensures
        r@ == strip_of(text@, seq!['[', ']']),
{
    let cs = chars_of(text);
    let set = vec!['[', ']'];
    assert(set@ =~= seq!['[', ']']);
    let t = strip_exec(cs.as_slice(), set.as_slice());
    string_of(t.as_slice())
}

/// The candidates of an `X-Forwarded-For` header: its comma-separated
/// pieces, in order.
pub fn forwarded_candidates(header: &str) -> (r: Vec<String>)
    ensures
        r@.map_values(|s: String| s@) == split_char(header@, ','),
{
    let cs = chars_of(header);
    let parts = split_char_exec(cs.as_slice(), ',');
    let mut r: Vec<String> = Vec::new();
    let mut i: usize = 0;
    while i < parts.len()
        invariant
            i <= parts@.len(),
            r@.map_values(|s: String| s@) == seqs_of(parts@).take(i as int),
        decreases parts.len() - i,
    {
        let ghost before = r@.map_values(|s: String| s@);
        r.push(string_of(parts[i].as_slice()));
        assert(r@.map_values(|s: String| s@) =~= before.push(parts@[i as int]@));
        assert(seqs_of(parts@).take(i + 1) =~= seqs_of(parts@).take(i as int).push(parts@[i as int]@));
        i += 1;
    }
    assert(seqs_of(parts@).take(parts@.len() as int) =~= seqs_of(parts@));
    r
}

/// The key a request is counted under: the forwarded client address where
/// forwarded headers are trusted and gave one, else the peer's address, else
/// `unknown`.
pub open spec fn client_key_of(trust_forwarded: bool, forwarded_ip: Option<Seq<char>>, peer_ip: Option<Seq<char>>) -> Seq<
    char,
> {
    if trust_forwarded && forwarded_ip is Some {
        forwarded_ip->0
    } else {
        match peer_ip {
            Some(p) => p,
            None => "unknown"@,
        }
    }
}

/// The key a request is counted under, from the forwarded client address
/// and the peer's address, each as text.
pub fn client_key(trust_forwarded: bool, forwarded_ip: Option<&str>, peer_ip: Option<&str>) -> (r: String)
    ensures
        r@ == client_key_of(
            trust_forwarded,
            match forwarded_ip {
                Some(f) => Some(f@),
                None => None,
            },
            match peer_ip {
                Some(p) => Some(p@),
                None => None,
            },
        ),
{
    if trust_forwarded {
        if let Some(f) = forwarded_ip {
            return f.to_owned();
        }
    }
    match peer_ip {
        Some(p) => p.to_owned(),
        None => "unknown".to_owned(),
    }
}

} // verus!
