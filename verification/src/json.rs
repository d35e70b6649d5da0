//! JSON text: string literals escaped the way `serde_json` writes them.
use vstd::prelude::*;
use crate::text::{chars_of, decimal, decimal_string, join, join_exec, push_char, push_chars, push_decimal, push_decimal_u128, seqs_of};

verus! {

/// The lowercase hexadecimal digit for `n < 16`.
pub open spec fn hex_digit(n: nat) -> char {
    if n < 10 { (n + 48) as char } else { (n + 87) as char }
}

/// How one character appears inside a JSON string: quote and backslash
/// escaped, the control characters with a short escape where JSON has one
/// and as `\u00XX` otherwise, every other character as itself.
pub open spec fn escape_char(c: char) -> Seq<char> {
    let u = c as u32;
    if c == '"' {
        seq!['\\', '"']
    } else if c == '\\' {
        seq!['\\', '\\']
    } else if u == 8 {
        seq!['\\', 'b']
    } else if u == 9 {
        seq!['\\', 't']
    } else if u == 10 {
        seq!['\\', 'n']
    } else if u == 12 {
        seq!['\\', 'f']
    } else if u == 13 {
        seq!['\\', 'r']
    } else if u < 32 {
        seq!['\\', 'u', '0', '0', hex_digit((u / 16) as nat), hex_digit((u % 16) as nat)]
    } else {
        seq![c]
    }
}

/// The escaped characters of `s`.
pub open spec fn escape(s: Seq<char>) -> Seq<char>
    decreases s.len(),
{
    if s.len() == 0 {
        Seq::empty()
    } else {
        escape(s.drop_last()) + escape_char(s.last())
    }
}

/// `s` as a JSON string literal.
pub open spec fn json_str(s: Seq<char>) -> Seq<char> {
    seq!['"'] + escape(s) + seq!['"']
}

fn hex_digit_exec(n: u32) -> (c: char)
    requires
        n < 16,
    ensures
        c == hex_digit(n as nat),
{
    let b: u8 = if n < 10 { (n as u8) + 48 } else { (n as u8) + 87 };
    b as char
}

fn push_escaped_char(out: &mut String, c: char)
    ensures
        final(out)@ == old(out)@ + escape_char(c),
{
    let u = c as u32;
    if c == '"' {
        push_char(out, '\\');
        push_char(out, '"');
    } else if c == '\\' {
        push_char(out, '\\');
        push_char(out, '\\');
    } else if u == 8 {
        push_char(out, '\\');
        push_char(out, 'b');
    } else if u == 9 {
        push_char(out, '\\');
        push_char(out, 't');
    } else if u == 10 {
        push_char(out, '\\');
        push_char(out, 'n');
    } else if u == 12 {
        push_char(out, '\\');
        push_char(out, 'f');
    } else if u == 13 {
        push_char(out, '\\');
        push_char(out, 'r');
    } else if u < 32 {
        push_char(out, '\\');
        push_char(out, 'u');
        push_char(out, '0');
        push_char(out, '0');
        push_char(out, hex_digit_exec(u / 16));
        push_char(out, hex_digit_exec(u % 16));
    } else {
        push_char(out, c);
    }
    assert(final(out)@ =~= old(out)@ + escape_char(c));
}

/// Appends `s` as a JSON string literal.
pub fn push_json_str(out: &mut String, s: &[char])
    ensures
        final(out)@ == old(out)@ + json_str(s@),
{
    let ghost start = out@;
    push_char(out, '"');
    let mut i: usize = 0;
    while i < s.len()
        invariant
            0 <= i <= s.len(),
            out@ == start + seq!['"'] + escape(s@.take(i as int)),
        decreases s.len() - i,
    {
        proof {
            assert(s@.take(i + 1).drop_last() =~= s@.take(i as int));
            assert(s@.take(i + 1).last() == s@[i as int]);
        }
        push_escaped_char(out, s[i]);
        i = i + 1;
        assert(out@ =~= start + seq!['"'] + escape(s@.take(i as int)));
    }
    push_char(out, '"');
    assert(s@.take(s@.len() as int) =~= s@);
    assert(out@ =~= start + json_str(s@));
}

/// Appends `t` as it stands (a key, a punctuation mark or a literal).
pub fn push_raw(out: &mut String, t: &str)
    ensures
        final(out)@ == old(out)@ + t@,
{
    crate::text::push_str(out, t);
}

/// Appends a JSON number.
pub fn push_json_u64(out: &mut String, n: u64)
    ensures
        final(out)@ == old(out)@ + decimal(n as nat),
{
    push_decimal(out, n);
}


/// A member of a JSON object: the key as a string, a colon, the value.
pub open spec fn member(key: Seq<char>, value: Seq<char>) -> Seq<char> {
    json_str(key) + seq![':'] + value
}

/// A JSON object of the given members, in order.
pub open spec fn object(members: Seq<Seq<char>>) -> Seq<char> {
    seq!['{'] + join(members, seq![',']) + seq!['}']
}

/// A JSON array of the given elements, in order.
pub open spec fn array(elems: Seq<Seq<char>>) -> Seq<char> {
    seq!['['] + join(elems, seq![',']) + seq![']']
}

/// The member for an optional number: absent where there is no number.
pub open spec fn opt_member(key: Seq<char>, v: Option<u32>) -> Seq<Seq<char>> {
    match v {
        Some(n) => seq![member(key, decimal(n as nat))],
        None => Seq::empty(),
    }
}

/// `s` as a JSON string literal, as characters.
pub fn json_str_exec(s: &[char]) -> (r: Vec<char>)
    ensures
        r@ == json_str(s@),
{
    let mut out = String::new();
    push_json_str(&mut out, s);
    assert(Seq::<char>::empty() + json_str(s@) =~= json_str(s@));
    chars_of(out.as_str())
}

/// `n` as a JSON number, as characters.
pub fn json_u64_exec(n: u64) -> (r: Vec<char>)
    ensures
        r@ == decimal(n as nat),
{
    let s = decimal_string(n);
    chars_of(s.as_str())
}

/// A member of a JSON object, as characters.
pub fn member_exec(key: &str, value: Vec<char>) -> (r: Vec<char>)
    ensures
        r@ == member(key@, value@),
{
    let mut out = String::new();
    let k = chars_of(key);
    push_json_str(&mut out, k.as_slice());
    push_char(&mut out, ':');
    push_chars(&mut out, value.as_slice());
    assert(out@ =~= member(key@, value@));
    chars_of(out.as_str())
}

fn wrap_join(open: char, parts: &Vec<Vec<char>>, close: char) -> (r: Vec<char>)
    ensures
        r@ == seq![open] + join(seqs_of(parts@), seq![',']) + seq![close],
{
    let mut out = String::new();
    push_char(&mut out, open);
    let comma = vec![','];
    let body = join_exec(parts, comma.as_slice());
    assert(comma@ =~= seq![',']);
    crate::text::push_str(&mut out, body.as_str());
    push_char(&mut out, close);
    assert(out@ =~= seq![open] + join(seqs_of(parts@), seq![',']) + seq![close]);
    chars_of(out.as_str())
}

/// A JSON object, as characters.
pub fn object_exec(members: &Vec<Vec<char>>) -> (r: Vec<char>)
    ensures
        r@ == object(seqs_of(members@)),
{
    wrap_join('{', members, '}')
}

/// A JSON array, as characters.
pub fn array_exec(elems: &Vec<Vec<char>>) -> (r: Vec<char>)
    ensures
        r@ == array(seqs_of(elems@)),
{
    wrap_join('[', elems, ']')
}

/// The decimal digits of `n`, with a minus sign where it is negative.
pub open spec fn signed_decimal(n: int) -> Seq<char> {
    if n < 0 {
        seq!['-'] + decimal((-n) as nat)
    } else {
        decimal(n as nat)
    }
}

/// `n` as a JSON number, as characters.
pub fn json_i64_exec(n: i64) -> (r: Vec<char>)
    ensures
        r@ == signed_decimal(n as int),
{
    let mut out = String::new();
    if n < 0 {
        push_char(&mut out, '-');
        let m: u128 = (0i128 - (n as i128)) as u128;
        push_decimal_u128(&mut out, m);
    } else {
        push_decimal(&mut out, n as u64);
    }
    assert(out@ =~= signed_decimal(n as int));
    chars_of(out.as_str())
}

/// `n` as a JSON number, as characters.
pub fn json_u128_exec(n: u128) -> (r: Vec<char>)
    ensures
        r@ == decimal(n as nat),
{
    let mut out = String::new();
    push_decimal_u128(&mut out, n);
    assert(out@ =~= decimal(n as nat));
    chars_of(out.as_str())
}

} // verus!
