//! State of the terminal dashboard: panels, sessions and subsystem snapshots.
pub mod cache;
pub mod chat_view;
pub mod dirty;
pub mod log_view;
pub mod memory_view;
pub mod events;
pub mod subsystems;
pub mod swarm_view;
pub mod wrapping;
pub mod state;
pub mod panels;
pub mod pool;
pub mod screen_view;
