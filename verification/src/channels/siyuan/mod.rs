//! The SiYuan note-taking app's REST API: requests, responses and calls.
pub mod block;
pub mod client;
pub mod document;
pub mod notebook;
pub mod types;
