//! A verified core for a CPU-usage monitor.
//!
//! Each measurement cycle samples every running process, ranks the
//! processes by CPU usage, compares the usage against configured
//! thresholds, and renders a fixed-width table, alert messages and
//! timestamped log entries. Percentages are carried as integer
//! hundredths of a percent so that every computation is exact.

pub mod alerts;
pub mod cycle;
pub mod logfmt;
pub mod numfmt;
pub mod stats;
pub mod table;
pub mod textfmt;

pub use stats::ProcessStats;
