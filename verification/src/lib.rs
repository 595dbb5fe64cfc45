//! A bridge from a Selfoss feed reader to a Discord server: every unread
//! item becomes a message in the channel named after its feed, and is then
//! marked as read.
//!
//! The library decides and formats; it sends nothing. `sync` holds the
//! routine as a machine that a driver steps, `runs` what holds of whole
//! runs, and the adapters build the requests that the driver sends.

pub mod config;
pub mod discord;
pub mod http;
pub mod registry;
pub mod runs;
pub mod selfoss;
pub mod sync;
pub mod text;
