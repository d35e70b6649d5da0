//! ZeroClaw: chat channels, gateway helpers, the Buddy companion and TUI state,
//! with their logic stated and proved in Verus.

pub mod agent;
pub mod buddy;
pub mod channels;
pub mod clock;
pub mod gateway;
pub mod json;
pub mod text;
pub mod tui;
