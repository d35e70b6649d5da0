//! Gateway state helpers: memory keys per channel and configured limits.
use vstd::prelude::*;
use crate::channels::processing::ChannelMessage;
use crate::clock::{is_hyphenated_uuid, new_uuid_v4};
use crate::text::push_str;
use crate::gateway::openai_compat::ChatRole;
use crate::json::{json_str, member, member_exec, object, object_exec};
use crate::text::{seqs_of, string_of};
use crate::channels::siyuan::types::str_json;

verus! {

/// Sliding window used by gateway rate limiting, in seconds.
pub const RATE_LIMIT_WINDOW_SECS: u64 = 60;

/// Fallback for the most client keys the gateway rate limiter tracks.
pub const RATE_LIMIT_MAX_KEYS_DEFAULT: usize = 10_000;

/// Fallback for the most idempotency keys the gateway remembers.
pub const IDEMPOTENCY_MAX_KEYS_DEFAULT: usize = 10_000;

/// The health check's answer.
#[derive(Debug, Clone, PartialEq, Eq)]
pub struct HealthResponse {
    /// "ok" when healthy.
    pub status: String,
    /// Unix seconds.
    pub timestamp: i64,
}

/// An error answer.
#[derive(Debug, Clone, PartialEq, Eq)]
pub struct ErrorResponse {
    /// What went wrong.
    pub error: String,
}

/// A fresh memory key for a webhook message: `webhook_msg_` and a random UUID.
pub fn webhook_memory_key() -> (k: String)
    ensures
        k@.len() == 48,
        "webhook_msg_"@.is_prefix_of(k@),
        is_hyphenated_uuid(k@.skip(12)),
{
    let mut k = String::new();
    push_str(&mut k, "webhook_msg_");
    let u = new_uuid_v4();
    push_str(&mut k, u.as_str());
    proof {
        reveal_strlit("webhook_msg_");
        assert(k@.skip(12) =~= u@);
    }
    k
}

/// `prefix`, `_`, the sender, `_` and the message id.
pub open spec fn channel_memory_key(prefix: Seq<char>, msg: ChannelMessage) -> Seq<char> {
    prefix + "_"@ + msg.sender@ + "_"@ + msg.id@
}

fn sender_key(prefix: &str, msg: &ChannelMessage) -> (k: String)
    ensures
        k@ == channel_memory_key(prefix@, *msg),
{
    let mut k = String::new();
    push_str(&mut k, prefix);
    push_str(&mut k, "_");
    push_str(&mut k, msg.sender.as_str());
    push_str(&mut k, "_");
    push_str(&mut k, msg.id.as_str());
    assert(k@ =~= channel_memory_key(prefix@, *msg));
    k
}

/// The memory key of a WhatsApp message.
pub fn whatsapp_memory_key(msg: &ChannelMessage) -> (k: String)
    ensures
        k@ == channel_memory_key("whatsapp"@, *msg),
{
    sender_key("whatsapp", msg)
}

/// The memory key of a Linq message.
pub fn linq_memory_key(msg: &ChannelMessage) -> (k: String)
    ensures
        k@ == channel_memory_key("linq"@, *msg),
{
    sender_key("linq", msg)
}

/// The memory key of a WATI message.
pub fn wati_memory_key(msg: &ChannelMessage) -> (k: String)
    ensures
        k@ == channel_memory_key("wati"@, *msg),
{
    sender_key("wati", msg)
}

/// The memory key of a Nextcloud Talk message.
pub fn nextcloud_talk_memory_key(msg: &ChannelMessage) -> (k: String)
    ensures
        k@ == channel_memory_key("nextcloud_talk"@, *msg),
{
    sender_key("nextcloud_talk", msg)
}

/// A configured key limit, with `fallback` (at least 1) where it is 0.
pub fn normalize_max_keys(configured: usize, fallback: usize) -> (n: usize)
    ensures
        n == if configured == 0 {
            if fallback == 0 { 1 } else { fallback }
        } else {
            configured
        },
        n >= 1,
{
    if configured == 0 {
        if fallback == 0 { 1 } else { fallback }
    } else {
        configured
    }
}

/// A WebSocket session: its id and its conversation so far, each turn with
/// its role and content.
#[derive(Debug, Clone)]
pub struct WsSession {
    pub id: String,
    pub chat_history: Vec<(ChatRole, String)>,
}

/// The JSON of an error body.
pub open spec fn error_json(message: Seq<char>) -> Seq<char> {
    object(seq![member("error"@, json_str(message))])
}

impl ErrorResponse {
    /// The body as JSON: `{"error": message}`.
    pub fn to_json(&self) -> (r: String)
        ensures
            r@ == error_json(self.error@),
    {
        let mut m: Vec<Vec<char>> = Vec::new();
        m.push(member_exec("error", str_json(self.error.as_str())));
        assert(seqs_of(m@) =~= seq![member("error"@, json_str(self.error@))]);
        let o = object_exec(&m);
        string_of(o.as_slice())
    }
}

/// An error reply: the HTTP status and the body carrying `message`.
pub fn error_response(status: u16, message: &str) -> (r: (u16, ErrorResponse))
    ensures
        r.0 == status,
        r.1.error@ == message@,
{
    (status, ErrorResponse { error: message.to_owned() })
}

} // verus!
