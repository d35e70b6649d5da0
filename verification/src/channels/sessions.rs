//! Chat sessions and messages as the web chat stores them.
use vstd::prelude::*;

verus! {

/// A chat session.
#[derive(Debug, Clone)]
pub struct ChatSession {
    pub id: String,
    pub title: String,
    /// RFC 3339 local time.
    pub created_at: String,
    /// RFC 3339 local time.
    pub updated_at: String,
    pub message_count: i64,
}

/// A message of a chat session.
#[derive(Debug, Clone)]
pub struct ChatMessage {
    pub id: String,
    pub session_id: String,
    pub role: String,
    pub content: String,
    /// RFC 3339 local time.
    pub created_at: String,
}

} // verus!
