//! Point-in-time operating-system metrics behind one platform-independent
//! data model. A platform hands over raw samples as plain values; the
//! library turns two successive samples of a cumulative counter into a
//! rate, and reconciles the processes and processors that appear and
//! disappear between refreshes.
//!
//! - `metrics`: the calculators, pure functions from two samples to a rate;
//! - `process`, `processor`, `disk`, `users`: the records of a snapshot and
//!   how each is built from what a platform reports;
//! - `system`: the snapshot and the refresh engine;
//! - `util`: NUL-terminated buffers and the order of texts.
//!
//! Percentages are fixed-point integers in thousandths of a percent, so a
//! fully busy processor reads `metrics::FULL_USAGE`.

pub mod disk;
pub mod metrics;
pub mod process;
pub mod processor;
pub mod system;
pub mod users;
pub mod util;
