//! Agent Client Protocol support for the Zed editor.

pub mod commands;
pub mod handler;
pub mod rpc;
pub mod streaming;
