//! Decision logic for a nightly "bedtime" routine over network-attached
//! lights: turning directory rows into dispatch targets, building the audit
//! event for each dispatch outcome, and sequencing one run of the pipeline.
//!
//! All I/O (the device directory query, the datagram send, the audit insert)
//! is performed by the caller, which feeds results back in as plain values.

pub mod device;
pub mod event;
pub mod run;
