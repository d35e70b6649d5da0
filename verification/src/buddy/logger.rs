//! Conversation log records: outcomes of turns and where the log lives.
use vstd::prelude::*;

verus! {

/// The outcome of a conversation turn.
#[derive(Debug, Clone, Copy, PartialEq, Eq, Structural)]
pub enum ConversationOutcome {
    /// The conversation goes on.
    Continued,
    /// The task or topic was completed.
    Completed,
    /// The user switched to another topic.
    Pivoted,
    /// The user abandoned the conversation.
    Abandoned,
}

/// One recorded conversation turn.
#[derive(Debug, Clone)]
pub struct ConversationTurn {
    /// When the turn happened (Unix milliseconds).
    pub timestamp: i64,
    pub user_input: String,
    pub buddy_response: String,
    pub emotion: crate::buddy::emotional_state::EmotionalState,
    pub situation: crate::buddy::situation::Situation,
    pub outcome: ConversationOutcome,
}

#[verifier::external_type_specification]
#[verifier::external_body]
pub struct ExPathBuf(std::path::PathBuf);

/// Appends conversation turns to a JSON Lines file.
pub struct ConversationLogger {
    log_path: std::path::PathBuf,
}

impl ConversationLogger {
    /// The file the logger writes to.
    pub closed spec fn path(&self) -> std::path::PathBuf {
        self.log_path
    }

    /// A logger writing to `path`.
    pub fn with_path(path: std::path::PathBuf) -> (l: Self)
        ensures
            l.path() == path,
    {
        ConversationLogger { log_path: path }
    }

    /// The file the logger writes to.
    pub fn log_path(&self) -> (p: &std::path::PathBuf)
        ensures
            *p == self.path(),
    {
        &self.log_path
    }
}

/// Reads conversation logs to extract patterns and track Buddy's growth.
pub struct EvolutionManager {
    logger: ConversationLogger,
}

impl EvolutionManager {
    /// The logger whose conversations are analysed.
    pub closed spec fn log(&self) -> ConversationLogger {
        self.logger
    }

    /// A manager analysing the conversations of `logger`.
    pub fn with_logger(logger: ConversationLogger) -> (m: Self)
        ensures
            m.log() == logger,
    {
        EvolutionManager { logger }
    }

    /// The logger whose conversations are analysed.
    pub fn logger(&self) -> (l: &ConversationLogger)
        ensures
            *l == self.log(),
    {
        &self.logger
    }
}

} // verus!
