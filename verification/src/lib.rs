//! Verified core of a terminal login manager: user-list parsing, the
//! keyboard-driven screen state machine and the screen layout.

pub mod auth;
pub mod secret;
pub mod system;
pub mod text;
pub mod state;
pub mod tui;
pub mod laws;
pub mod users;
pub mod width;
