//! The HTTP gateway's logic: rate limiting, idempotency and helpers.
pub mod api;
pub mod client_ip;
pub mod completions;
pub mod middleware;
pub mod openai_compat;
pub mod openai_sse;
pub mod replies;
pub mod secrets;
pub mod state;
pub mod widgets;
