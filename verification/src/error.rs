//! The error that the fallible operations of the log abstractions report.

use vstd::prelude::*;

verus! {

/// An error reported by a log transfer, decision log or persistent log
/// operation, with a description of what went wrong.
#[derive(Clone, Debug)]
pub struct Error {
    pub message: String,
}

} // verus!
