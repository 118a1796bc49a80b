//! Windowed energy-usage aggregation for a metrics exporter.
//!
//! The library computes calendar-aligned and rolling time-window boundaries,
//! maps grid-region names, reduces consumption readings and carbon-intensity
//! samples to per-window aggregates, assembles a per-cycle summary with
//! failure isolation, and decides the poll-loop state transitions.  All
//! quantities are carried as exact integers (micro-kilowatt-hours, integer
//! intensity sums with sample counts); converting to decimal strings or
//! floating gauges is left to the surrounding process.

pub mod calendar;
pub mod region;
pub mod usage;
pub mod carbon;
pub mod summary;
pub mod poll;
pub mod timefmt;
pub mod cli;
pub mod clock;
