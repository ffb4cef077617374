//! Inspection of a computation graph: formatting of tensor shapes and
//! per-operation report lines.
//!
//! The formatting rules and the report layout are the verified core; opening a
//! saved model bundle and walking its operations is left to a thin front end
//! that hands this library plain values.

pub mod format;
pub mod report;
