//! Verification of the signatures carried by log transfer messages.

use vstd::prelude::*;

verus! {

/// The helper through which a log transfer protocol verifies the ordering
/// protocol messages (and their signatures) that the transferred logs carry,
/// for requests `RQ`, ordering protocol messages `OP` and network information `NI`.
pub trait LogTransferVerificationHelper<RQ, OP, NI> {}

} // verus!
