//! The messages of the log transfer protocol and the node that sends them.

use std::collections::BTreeMap;

use vstd::prelude::*;

use crate::error::Error;
use crate::log_transfer::networking::serialize::LogTransferMessage;
use crate::ordering::NodeId;

pub mod serialize;
pub mod signature_ver;

verus! {

/// A log transfer message: the payload of the log transfer protocol in use.
#[derive(Clone)]
pub struct LogTransfer<P> {
    payload: P,
}

impl<P> LogTransfer<P> {
    /// The payload carried by this message.
    pub closed spec fn spec_payload(self) -> P {
        self.payload
    }

    /// The message that carries `payload`.
    pub closed spec fn spec_new(payload: P) -> Self {
        LogTransfer { payload }
    }

    /// Wraps `payload` in a log transfer message.
    pub fn new(payload: P) -> (res: Self)
        ensures
            res == Self::spec_new(payload),
            res.spec_payload() == payload,
    {
        Self { payload }
    }

    /// The payload of this message.
    pub fn payload(&self) -> (res: &P)
        ensures
            *res == self.spec_payload(),
    {
        &self.payload
    }

    /// Consumes this message and gives back its payload.
    pub fn into_inner(self) -> (res: P)
        ensures
            res == self.spec_payload(),
    {
        self.payload
    }
}

/// Wrapping a payload in a message and taking it out again, by `payload`,
/// `into_inner` or dereferencing the message, gives back that payload.
pub proof fn lemma_payload_of_new<P>(payload: P)
    ensures
        LogTransfer::spec_new(payload).spec_payload() == payload,
{
}

/// Taking the payload out of a message and wrapping it again gives back the
/// same message: a message is nothing but its payload.
pub proof fn lemma_new_of_payload<P>(message: LogTransfer<P>)
    ensures
        LogTransfer::spec_new(message.spec_payload()) == message,
{
}

impl<P> core::ops::Deref for LogTransfer<P> {
    type Target = P;

    fn deref(&self) -> (res: &P)
        ensures
            *res == self.spec_payload(),
    {
        &self.payload
    }
}

/// The node through which a log transfer protocol sends its messages
/// `LPM::LogTransferMessage`.
pub trait LogTransferSendNode<RQ, OP, LPM>: Send + Sync
where
    LPM: LogTransferMessage<RQ, OP>,
{
    /// A message serialized together with its header, ready to be sent.
    type SerializedMessage;

    /// A serialized message stored with its header, ready to be broadcast.
    type StoredSerializedMessage;

    /// The digest of a serialized message.
    type Digest;

    /// Our own ID
    fn id(&self) -> NodeId;

    /// Sends a message to a given target.
    /// Does not block on the message sent. Returns a result that is
    /// Ok if there is a current connection to the target or err if not. No other checks are made
    /// on the success of the message dispatch
    fn send(&self, message: LPM::LogTransferMessage, target: NodeId, flush: bool) -> Result<(), Error>;

    /// Sends a signed message to a given target
    /// Does not block on the message sent. Returns a result that is
    /// Ok if there is a current connection to the target or err if not. No other checks are made
    /// on the success of the message dispatch
    fn send_signed(
        &self,
        message: LPM::LogTransferMessage,
        target: NodeId,
        flush: bool,
    ) -> Result<(), Error>;

    /// Broadcast a message to all of the given targets
    /// Does not block on the message sent. Returns a result that is
    /// Ok if there is a current connection to the targets or err if not. No other checks are made
    /// on the success of the message dispatch
    fn broadcast(
        &self,
        message: LPM::LogTransferMessage,
        targets: impl Iterator<Item = NodeId>,
    ) -> Result<(), Vec<NodeId>>;

    /// Broadcast a signed message for all of the given targets
    /// Does not block on the message sent. Returns a result that is
    /// Ok if there is a current connection to the targets or err if not. No other checks are made
    /// on the success of the message dispatch
    fn broadcast_signed(
        &self,
        message: LPM::LogTransferMessage,
        target: impl Iterator<Item = NodeId>,
    ) -> Result<(), Vec<NodeId>>;

    /// Serialize a message to a given target.
    /// Creates the serialized byte buffer along with the header, so we can send it later.
    fn serialize_digest_message(
        &self,
        message: LPM::LogTransferMessage,
    ) -> Result<(Self::SerializedMessage, Self::Digest), Error>;

    /// Broadcast the serialized messages provided.
    /// Does not block on the message sent. Returns a result that is
    /// Ok if there is a current connection to the targets or err if not. No other checks are made
    /// on the success of the message dispatch
    fn broadcast_serialized(
        &self,
        messages: BTreeMap<NodeId, Self::StoredSerializedMessage>,
    ) -> Result<(), Vec<NodeId>>;
}

} // verus!
