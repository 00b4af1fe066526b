//! Bulk generation of synthetic phone numbers: the value generator, the
//! partition of a requested total among producer workers, and the decisions
//! of the single writer that loads every batch in one transaction.

pub mod digits;
pub mod generator;
pub mod orchestrator;
pub mod partition;
pub mod writer;
