//! A verified core for a line/word/character/byte counting utility.
//!
//! The library computes the four counters of a text input, merges
//! per-input results into running totals, and renders the fixed-width
//! output fields. All reading of files and argument handling lives
//! outside the library; it hands in plain strings and flags.

pub mod config;
pub mod render;
pub mod stats;

pub use config::Config;
pub use config::UsageError;
pub use render::format_field;
pub use render::format_stats_line;
pub use render::format_total_line;
pub use stats::compute_stats;
pub use stats::WcrStats;
