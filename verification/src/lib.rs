//! A break-scheduling engine for a desk-work reminder utility.
//!
//! The engine tracks active work time against configurable micro-break and
//! full-break intervals, survives system suspend/resume without drift, and
//! generates at most one due-break event per Idle-to-Due transition. All
//! timer driving, notification rendering and window handling live outside
//! this crate; the engine itself is pure accounting over plain values.

pub mod laws;
pub mod scheduler;
pub mod settings;
