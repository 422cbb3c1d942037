//! The decision log: the log of the decisions taken by the ordering protocol.

pub mod serialize;
