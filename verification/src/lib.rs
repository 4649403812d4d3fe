//! Failure-tolerant reporting of host machine vitals.
//!
//! The library turns the fallible results of per-category system probes
//! (operating system identity, CPU count and clock speed, load averages,
//! memory usage) into a fixed four-line textual report.  A failing probe
//! never stops the report: scalar metrics degrade to the sentinel
//! `"unknown"`, structured metrics drop their whole line to
//! `"<Label>: unknown"` and yield one diagnostic line.  Memory figures are
//! rendered in kilobytes, megabytes or gigabytes according to a unit chosen
//! from the invocation arguments.

pub mod decimal;
pub mod format;
pub mod normalize;
pub mod units;
