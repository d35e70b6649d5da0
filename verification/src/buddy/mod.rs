//! Buddy, the accountability companion: emotions, blockers, situations and
//! conversation rules.

pub mod blocker;
pub mod cli;
pub mod conversation;
pub mod logger;
pub mod patterns;
pub mod personality;
pub mod emotional_state;
pub mod situation;
pub mod state;
