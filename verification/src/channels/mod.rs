//! Chat channels: the Zed editor protocol, terminal feedback and message keys.

pub mod acp;
pub mod cli_feedback;
pub mod processing;
pub mod sessions;
pub mod siyuan;
