//! A harness that checks a flush-ordering durability invariant of a
//! two-partition key-value store across abrupt process crashes.
//!
//! The library holds the decisions of the harness as verified state
//! machines over an abstract model of the store; the program around it
//! performs the store calls, reads the clock and kills the process.

pub mod keys;
pub mod partition;
pub mod store;
pub mod scan;
pub mod fault;
pub mod reset;
pub mod schedule;
pub mod config;
