//! Window lifecycle rules of the PeridotVault desktop shell.
//!
//! The crate decides which top-level surface (login, main or a game view) is
//! opened, under which label, and which surface is retired afterwards. It never
//! touches a window itself: every operation is a small state machine that asks
//! the shell to probe, create or close a surface and is told the answer.

pub mod address;
pub mod commands;
pub mod error;
pub mod gate;
pub mod label;
pub mod lifecycle;
pub mod presets;
pub mod shell;
pub mod surface;
pub mod text;
pub mod windows;
