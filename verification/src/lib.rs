//! A dynamic-DNS reconciliation library.
//!
//! The library periodically discovers the caller's current public IP
//! address, compares it against the address recorded by a remote DNS
//! provider, and decides when an update call must be issued.  All
//! decisions — endpoint selection, response classification, payload
//! parsing and encoding, and the per-cycle state machine — live here
//! and are verified; the surrounding process performs the HTTP calls
//! and hands their results back as plain values.

pub mod config;
pub mod cycle;
pub mod errors;
pub mod payload;
pub mod select;
pub mod text;
