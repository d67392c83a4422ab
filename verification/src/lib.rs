//! Polling, deduplication and notification engine for watching the fills of
//! exchange accounts.

pub mod channel;
pub mod clock;
pub mod display;
pub mod fill;
pub mod history;
pub mod log;
pub mod message;
pub mod monitor;
pub mod registry;
pub mod text;
pub mod tracker;
