//! Lock-free style execution-frequency counters with a stable byte layout,
//! for consumption by an external coverage collector.
//!
//! The library models each counter as a plain 8-bit value and proves the two
//! increment policies — the "never-zero" increment, which carries overflow
//! back in so a touched counter is never observed as zero again, and the
//! saturating increment, which clamps at 255 — together with the hash routing
//! that maps an unbounded set of logical keys onto a bounded counter array.

pub mod counter;
pub mod counters;

pub use counter::Counter;
pub use counters::Counters;
