//! Watches a marketplace listing for new versions of a plugin.
//!
//! - [`text`] finds marker substrings in character sequences.
//! - [`calendar`] holds local date-times and asks `chrono` for the day of the
//!   week and for the text of a date.
//! - [`fvs`] holds the marketplace's answer about the plugin.
//! - [`notify`] extracts the highlight of a changelog and builds the news
//!   card that announces a version.
//! - [`schedule`] says how long to wait between ticks and when a tick leads
//!   to a fetch.
//! - [`poll`] decides, event by event, what the watcher does next.
//!
//! The library does no I/O: a program around it waits, fetches and sends.

pub mod calendar;
pub mod fvs;
pub mod notify;
pub mod poll;
pub mod schedule;
pub mod text;
