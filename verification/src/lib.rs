//! Resource-health aggregation and threshold reporting for code analysis.
//!
//! The crate consumes per-function resource measurements (energy, time,
//! carbon, memory, health scores) produced by an external estimator, folds
//! them into directory-level summaries, evaluates ecological thresholds to
//! produce pass/fail verdicts and severity-graded findings, and classifies
//! overall efficiency on a bounded letter scale.
//!
//! All quantities are carried as fixed-point integers (millijoules,
//! micrograms, microseconds, tenths of a score point), so every computation
//! here is exact and verified.

pub mod aggregate;
pub mod fleet;
pub mod metrics;
pub mod publish;
pub mod record;
pub mod report;
pub mod text;
