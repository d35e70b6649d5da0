//! Channel message processing: the keys under which conversations are kept.
use vstd::prelude::*;
use crate::text::push_str;

verus! {

/// Default message timeout in seconds.
pub const CHANNEL_MESSAGE_TIMEOUT_SECS: u64 = 120;

/// A message received on a channel, as far as routing reads it.
#[derive(Debug, Clone)]
pub struct ChannelMessage {
    /// The message's id on its channel.
    pub id: String,
    /// Who sent it.
    pub sender: String,
    /// Where a reply goes.
    pub reply_target: String,
    /// The text.
    pub content: String,
    /// The channel's name.
    pub channel: String,
    /// The thread or forum topic, where there is one.
    pub thread_ts: Option<String>,
}

/// Channel route selection (provider and model).
#[derive(Debug, Clone, PartialEq, Eq)]
pub struct ChannelRouteSelection {
    /// The provider's name.
    pub provider: String,
    /// The model's name.
    pub model: String,
}

/// The parts joined with `_`.
pub open spec fn underscore_join(parts: Seq<Seq<char>>) -> Seq<char>
    decreases parts.len(),
{
    if parts.len() == 0 {
        Seq::empty()
    } else if parts.len() == 1 {
        parts[0]
    } else {
        underscore_join(parts.drop_last()) + "_"@ + parts.last()
    }
}

/// The memory key of a message: channel, thread (where there is one),
/// sender and id.
pub open spec fn memory_key_of(msg: ChannelMessage) -> Seq<char> {
    match msg.thread_ts {
        Some(tid) => underscore_join(seq![msg.channel@, tid@, msg.sender@, msg.id@]),
        None => underscore_join(seq![msg.channel@, msg.sender@, msg.id@]),
    }
}

/// The history key of a message: channel, thread (where there is one) and
/// sender.
pub open spec fn history_key_of(msg: ChannelMessage) -> Seq<char> {
    match msg.thread_ts {
        Some(tid) => underscore_join(seq![msg.channel@, tid@, msg.sender@]),
        None => underscore_join(seq![msg.channel@, msg.sender@]),
    }
}

/// Appends `_` and `part`.
fn push_part(s: &mut String, part: &str)
    ensures
        final(s)@ == old(s)@ + "_"@ + part@,
{
    push_str(s, "_");
    push_str(s, part);
}

/// The key under which a message's exchange is remembered (per topic in
/// forum groups).
pub fn conversation_memory_key(msg: &ChannelMessage) -> (k: String)
    ensures
        k@ == memory_key_of(*msg),
{
    proof { reveal_with_fuel(underscore_join, 5); }
    let mut k = msg.channel.clone();
    match &msg.thread_ts {
        Some(tid) => {
            push_part(&mut k, tid.as_str());
            push_part(&mut k, msg.sender.as_str());
            push_part(&mut k, msg.id.as_str());
            assert(seq![msg.channel@, tid@, msg.sender@, msg.id@].drop_last().drop_last().drop_last() =~= seq![msg.channel@]);
            assert(seq![msg.channel@, tid@, msg.sender@, msg.id@].drop_last().drop_last() =~= seq![msg.channel@, tid@]);
            assert(seq![msg.channel@, tid@, msg.sender@, msg.id@].drop_last() =~= seq![msg.channel@, tid@, msg.sender@]);
        },
        None => {
            push_part(&mut k, msg.sender.as_str());
            push_part(&mut k, msg.id.as_str());
            assert(seq![msg.channel@, msg.sender@, msg.id@].drop_last().drop_last() =~= seq![msg.channel@]);
            assert(seq![msg.channel@, msg.sender@, msg.id@].drop_last() =~= seq![msg.channel@, msg.sender@]);
        },
    }
    k
}

/// The key of a sender's conversation history (per topic in forum groups).
pub fn conversation_history_key(msg: &ChannelMessage) -> (k: String)
    ensures
        k@ == history_key_of(*msg),
{
    proof { reveal_with_fuel(underscore_join, 5); }
    let mut k = msg.channel.clone();
    match &msg.thread_ts {
        Some(tid) => {
            push_part(&mut k, tid.as_str());
            push_part(&mut k, msg.sender.as_str());
            assert(seq![msg.channel@, tid@, msg.sender@].drop_last().drop_last() =~= seq![msg.channel@]);
            assert(seq![msg.channel@, tid@, msg.sender@].drop_last() =~= seq![msg.channel@, tid@]);
        },
        None => {
            push_part(&mut k, msg.sender.as_str());
            assert(seq![msg.channel@, msg.sender@].drop_last() =~= seq![msg.channel@]);
        },
    }
    k
}

/// The scope in which a new message interrupts one in flight: channel,
/// reply target and sender.
pub fn interruption_scope_key(msg: &ChannelMessage) -> (k: String)
    ensures
        k@ == underscore_join(seq![msg.channel@, msg.reply_target@, msg.sender@]),
{
    proof { reveal_with_fuel(underscore_join, 5); }
    let mut k = msg.channel.clone();
    push_part(&mut k, msg.reply_target.as_str());
    push_part(&mut k, msg.sender.as_str());
    assert(seq![msg.channel@, msg.reply_target@, msg.sender@].drop_last().drop_last() =~= seq![msg.channel@]);
    assert(seq![msg.channel@, msg.reply_target@, msg.sender@].drop_last() =~= seq![msg.channel@, msg.reply_target@]);
    k
}

} // verus!
