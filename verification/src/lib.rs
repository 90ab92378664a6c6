//! Keystroke counting for a menu-bar typing counter: session statistics,
//! key classification, daily aggregates and the small decisions taken by
//! the application shell (date ranges, tracking switch, tray menu).

pub mod time;
pub mod stats;
pub mod keys;
pub mod records;
pub mod commands;

