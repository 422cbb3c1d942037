//! Decision-log and log-transfer abstractions of a replicated state-machine
//! framework: the results a log transfer protocol reports, the message wrapper
//! it sends, and the interfaces that decision logs, persistent logs and
//! network nodes offer to it.

pub mod decision_log;
pub mod error;
pub mod log_transfer;
pub mod ordering;
pub mod persistent_log;
