//! The message types of log transfer protocols and their verification.

use std::sync::Arc;

use vstd::prelude::*;

use crate::error::Error;
use crate::log_transfer::networking::signature_ver::LogTransferVerificationHelper;

verus! {

/// The abstraction for log transfer protocol messages.
/// This allows us to have any log transfer protocol work with the same backbone
pub trait LogTransferMessage<RQ, OP>: Send + Sync {
    /// The message type for the log transfer protocol
    type LogTransferMessage;

    /// Verify the message, received with the header `header`, and succeed if it is valid
    fn verify_log_message<NI, LVH, H>(
        network_info: &Arc<NI>,
        header: &H,
        message: &Self::LogTransferMessage,
    ) -> Result<(), Error>
    where
        LVH: LogTransferVerificationHelper<RQ, OP, NI>,
    ;
}

/// The serialization of a replica that runs no log transfer protocol: its
/// messages carry nothing.
pub struct NoProtocol;

impl<RQ, P> LogTransferMessage<RQ, P> for NoProtocol {
    type LogTransferMessage = ();

    /// Every message of the empty protocol is valid.
    fn verify_log_message<NI, LVH, H>(
        _network_info: &Arc<NI>,
        _header: &H,
        _message: &Self::LogTransferMessage,
    ) -> (res: Result<(), Error>)
    where
        LVH: LogTransferVerificationHelper<RQ, P, NI>,
        ensures
            res is Ok,
    {
        Ok(())
    }
}

} // verus!
