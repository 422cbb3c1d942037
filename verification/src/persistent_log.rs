//! The persistent decision log: the decision log as it is kept on stable storage.

use vstd::prelude::*;

use crate::decision_log::serialize::DecisionLogMessage;
use crate::error::Error;
use crate::ordering::SeqNo;

verus! {

/// The trait that defines the the persistent decision log, so that the decision log can be persistent
pub trait PersistentDecisionLog<RQ, OPM, POP, LS>: Send
where
    LS: DecisionLogMessage<RQ, OPM, POP>,
{
    /// How an operation is carried out: blocking until it is on stable
    /// storage, or not.
    type OperationMode;

    /// The proof of one decision of the ordering protocol.
    type Proof;

    /// A batch of decided requests, on its way to the executor.
    type BatchedDecision;

    /// What the decision log decided to do with a decision.
    type LoggingDecision;

    /// A checkpoint has been done on the state, so we can clear the current decision log
    fn checkpoint_received(&self, mode: Self::OperationMode, seq: SeqNo) -> Result<(), Error>;

    /// Write a given proof to the persistent log
    fn write_proof(&self, write_mode: Self::OperationMode, proof: Self::Proof) -> Result<(), Error>;

    /// Write the metadata of a decision into the persistent log
    fn write_decision_log_metadata(
        &self,
        mode: Self::OperationMode,
        log_metadata: LS::DecLogMetadata,
    ) -> Result<(), Error>;

    /// Write the decision log into the persistent log
    fn write_decision_log(&self, mode: Self::OperationMode, log: LS::DecLog) -> Result<(), Error>;

    /// Read a proof from the log with the given sequence number
    fn read_proof(&self, mode: Self::OperationMode, seq: SeqNo) -> Result<Option<Self::Proof>, Error>;

    /// Read the decision log from the persistent storage
    fn read_decision_log(&self, mode: Self::OperationMode) -> Result<Option<LS::DecLog>, Error>;

    /// Reset the decision log on disk
    fn reset_log(&self, mode: Self::OperationMode) -> Result<(), Error>;

    /// Wait for the persistence of a given proof, if necessary
    /// The return of this function is dependent on the current mode of the persistent log.
    /// Namely, if we have to perform some sort of operations before the decision can be safely passed
    /// to the executor, then we want to return [None] on this function. If there is no need
    /// of further persistence, then the decision should be re returned with [Some]
    fn wait_for_full_persistence(
        &self,
        batch: Self::BatchedDecision,
        logging_decision: Self::LoggingDecision,
    ) -> Result<Option<Self::BatchedDecision>, Error>;
}

} // verus!
