//! The agent's side of the gateway: telemetry events and stream chunks.
pub mod streaming;
pub mod telemetry;
