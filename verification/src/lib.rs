//! Concurrent download-throughput measurement: a probe state machine that
//! times one bounded download, a scheduler join that collects every probe's
//! outcome, aggregation policies that reduce the outcomes to one speed
//! figure, and a formatter that renders that figure with a unit suffix.

pub mod aggregate;
pub mod outcome;
pub mod probe;
pub mod render;
pub mod sched;
pub mod speed;
