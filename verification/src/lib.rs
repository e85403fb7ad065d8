//! Core of a Precision Time Protocol (IEEE 1588-2019) ordinary clock:
//! the on-wire message header codec, the datasets that describe the clock
//! and its ports, the per-port state transitions driven by the best-master
//! election, the offset/delay estimator, and the metrics text formatter.

pub mod bmca;
pub mod common;
pub mod current;
pub mod filter;
pub mod foreign_master;
pub mod messages;
pub mod metrics;
pub mod network;
pub mod port;
pub mod time;
