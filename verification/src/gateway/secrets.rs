//! Webhook secrets: SHA-256 hashing and HMAC signature checks.
use vstd::prelude::*;
use hmac::Mac;
use sha2::Digest;
use crate::json::hex_digit;
use crate::text::{chars_of, starts_with_exec, string_of};
use vstd::string::StringSliceAdditionalSpecFns;

verus! {

/// `bytes` as lowercase hexadecimal, two digits per byte.
pub open spec fn hex_encode(bytes: Seq<u8>) -> Seq<char>
    decreases bytes.len(),
{
    if bytes.len() == 0 {
        Seq::empty()
    } else {
        let b = bytes.last();
        hex_encode(bytes.drop_last()) + seq![hex_digit((b / 16) as nat), hex_digit((b % 16) as nat)]
    }
}

/// The value of a hexadecimal digit, either case.
pub open spec fn hex_value(c: char) -> Option<u8> {
    if '0' <= c && c <= '9' {
        Some((c as u32 - 48) as u8)
    } else if 'a' <= c && c <= 'f' {
        Some((c as u32 - 87) as u8)
    } else if 'A' <= c && c <= 'F' {
        Some((c as u32 - 55) as u8)
    } else {
        None
    }
}

/// The bytes written by `s` in hexadecimal, two digits per byte, either
/// case; none where `s` has an odd length or a character that is no digit.
pub open spec fn hex_decode(s: Seq<char>) -> Option<Seq<u8>>
    decreases s.len(),
{
    if s.len() == 0 {
        Some(Seq::empty())
    } else if s.len() == 1 {
        None
    } else {
        match (hex_decode(s.drop_last().drop_last()), hex_value(s[s.len() - 2]), hex_value(s.last())) {
            (Some(rest), Some(hi), Some(lo)) => Some(rest.push((hi * 16 + lo) as u8)),
            _ => None,
        }
    }
}

/// What `Sha256::digest` returns for `bytes`.
pub uninterp spec fn sha256(bytes: Seq<u8>) -> Seq<u8>;

/// What HMAC-SHA256 with `key` computes over `message`.
pub uninterp spec fn hmac_sha256(key: Seq<u8>, message: Seq<u8>) -> Seq<u8>;

/// `sha2::Sha256::digest`: the SHA-256 digest of `bytes`, 32 bytes long.
#[verifier::external_body]
fn sha256_digest(bytes: &[u8]) -> (d: Vec<u8>)
    ensures
        d@ == sha256(bytes@),
        d@.len() == 32,
{
    sha2::Sha256::digest(bytes).to_vec()
}

/// `hex::encode`: `bytes` in lowercase hexadecimal, two digits per byte.
#[verifier::external_body]
fn hex_encode_exec(bytes: &[u8]) -> (s: String)
    ensures
        s@ == hex_encode(bytes@),
{
    hex::encode(bytes)
}

/// `hex::decode`: the bytes written by `s` in hexadecimal (either case),
/// none where it fails (odd length, a character that is no digit).
#[verifier::external_body]
fn hex_decode_exec(s: &str) -> (r: Option<Vec<u8>>)
    ensures
        match r {
            Some(v) => hex_decode(s@) == Some(v@),
            None => hex_decode(s@) is None,
        },
{
    hex::decode(s).ok()
}

/// `Hmac::<Sha256>::new_from_slice(key)`, `update(message)` and
/// `finalize().into_bytes()`: the HMAC-SHA256 of `message` under `key`.
/// The crate's `new_from_slice` accepts keys of every length.
#[verifier::external_body]
fn hmac_sha256_exec(key: &[u8], message: &[u8]) -> (m: Vec<u8>)
    ensures
        m@ == hmac_sha256(key@, message@),
{
    match hmac::Hmac::<sha2::Sha256>::new_from_slice(key) {
        Ok(mut mac) => {
            mac.update(message);
            mac.finalize().into_bytes().to_vec()
        },
        Err(_) => Vec::new(),
    }
}

/// The SHA-256 hash of a webhook secret, in lowercase hexadecimal.
pub fn hash_webhook_secret(value: &str) -> (h: String)
    ensures
        h@ == hex_encode(sha256(value.spec_bytes())),
{
    let d = sha256_digest(value.as_bytes());
    hex_encode_exec(d.as_slice())
}

/// Compares two byte strings in time that depends only on their lengths.
pub fn constant_time_eq(a: &[u8], b: &[u8]) -> (r: bool)
    ensures
        r == (a@ == b@),
{
    if a.len() != b.len() {
        return false;
    }
    let mut acc: u8 = 0;
    let mut i: usize = 0;
    while i < a.len()
        invariant
            i <= a.len(),
            a.len() == b.len(),
            (acc == 0) == (forall|j: int| 0 <= j < i ==> a@[j] == b@[j]),
        decreases a.len() - i,
    {
        let x = a[i];
        let y = b[i];
        let next = acc | (x ^ y);
        assert((next == 0) == (acc == 0 && x == y)) by (bit_vector)
            requires
                next == acc | (x ^ y),
        ;
        acc = next;
        i += 1;
    }
    if acc == 0 {
        assert(a@ =~= b@);
    }
    acc == 0
}

/// The signature part of a `X-Hub-Signature-256` header: what follows
/// `sha256=`, or the whole header without that prefix.
pub open spec fn signature_hex(header: Seq<char>) -> Seq<char> {
    if "sha256="@.is_prefix_of(header) {
        header.skip(7)
    } else {
        header
    }
}

/// A WhatsApp webhook signature (`X-Hub-Signature-256`, `sha256=<hex>`)
/// holds: the hexadecimal decodes to the HMAC-SHA256 of the body under the
/// app secret.
pub fn verify_whatsapp_signature(app_secret: &str, body: &[u8], signature_header: &str) -> (r: bool)
    ensures
        r == match hex_decode(signature_hex(signature_header@)) {
            Some(expected) => expected == hmac_sha256(app_secret.spec_bytes(), body@),
            None => false,
        },
{
    let header = chars_of(signature_header);
    let prefix = chars_of("sha256=");
    proof { reveal_strlit("sha256="); }
    let sig = if starts_with_exec(header.as_slice(), prefix.as_slice()) {
        let mut rest: Vec<char> = Vec::new();
        let mut i: usize = 7;
        while i < header.len()
            invariant
                7 <= i <= header.len(),
                rest@ == header@.subrange(7, i as int),
            decreases header.len() - i,
        {
            rest.push(header[i]);
            i += 1;
        }
        assert(rest@ =~= header@.skip(7));
        string_of(rest.as_slice())
    } else {
        string_of(header.as_slice())
    };
    assert(sig@ == signature_hex(signature_header@));
    let expected = match hex_decode_exec(sig.as_str()) {
        Some(v) => v,
        None => return false,
    };
    let computed = hmac_sha256_exec(app_secret.as_bytes(), body);
    constant_time_eq(expected.as_slice(), computed.as_slice())
}

} // verus!
