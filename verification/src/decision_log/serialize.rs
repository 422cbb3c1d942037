//! The types a decision log exchanges with other replicas, and their verification.

use std::sync::Arc;

use vstd::prelude::*;

use crate::error::Error;
use crate::ordering::{Orderable, SeqNo};

verus! {

/// A complete decision log: the sequence number of its last decision (from
/// [`Orderable`]) and of its first one.
pub trait OrderProtocolLog: Orderable {
    /// The sequence number of the first decision in the log, if it holds any.
    fn first_seq(&self) -> Option<SeqNo>;
}

/// A trait defining what we need in order to verify parts of the decision log
pub trait OrderProtocolLogPart: Orderable {
    /// We only need to add the first sequence number, since we already know the last
    /// from the orderable implementation
    fn first_seq(&self) -> Option<SeqNo>;
}

/// The types that a decision log exchanges, for requests `RQ`, ordering
/// protocol messages `OPM` and persistable ordering protocol types `POP`.
pub trait DecisionLogMessage<RQ, OPM, POP>: Send + Sync {
    /// A metadata type to allow for decision logs to include some
    /// more specific information into their decision log, apart from
    /// the list of proofs
    type DecLogMetadata;

    /// A type that defines the log of decisions made since the last garbage collection
    /// (In the case of BFT SMR the log is GCed after a checkpoint of the application)
    type DecLog: OrderProtocolLog;

    /// A part of the log of decisions made since the last garbage collection
    type DecLogPart: OrderProtocolLogPart;

    /// Verifies a decision log received from another replica, with the help of
    /// the ordering protocol's verification helper `OPVH`, and gives it back if
    /// it is valid.
    fn verify_decision_log<NI, OPVH>(
        network_info: &Arc<NI>,
        dec_log: Self::DecLog,
    ) -> Result<Self::DecLog, Error>;
}

} // verus!
