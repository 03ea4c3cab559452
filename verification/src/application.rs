//! Use-case decisions, port data types and in-memory stores: the application layer's logic,
//! free of the async plumbing that drives it.
pub mod audit_recorder;
pub mod ports;
pub mod testkit;
pub mod use_cases;
