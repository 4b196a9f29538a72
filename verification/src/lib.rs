//! Adapters that put a three-player chess rules engine behind a host-driven
//! game protocol, and that turn pointer gestures into moves proposed to that
//! host.
//!
//! - [`player`]: seats and the identifiers the host uses for them.
//! - [`error`]: the errors handed back to the host.
//! - [`engine`]: what the adapters need from a rules engine.
//! - [`surface`]: what the interaction adapter needs from a pointer surface.
//! - [`game`]: the game adapter and the rules of its protocol.
//! - [`frontend`]: the interaction adapter and the rules of its protocol.
//! - [`tokens`], [`table`]: a small engine and surface that meet the two
//!   contracts.

pub mod engine;
pub mod error;
pub mod frontend;
pub mod game;
pub mod player;
pub mod surface;
pub mod table;
pub mod tokens;
