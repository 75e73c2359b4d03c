use vstd::prelude::*;

verus! {

/// Failures that the library surfaces to its callers.
#[derive(Clone, Copy, Debug, PartialEq, Eq, Structural)]
pub enum EsdmError {
    /// Every attempt of a call to the daemon failed: it cannot be reached or it
    /// rejects the operation.
    Unavailable,
    /// A timed wait reached its deadline before the daemon signalled.
    TimedOut,
    /// The monotonic clock could not be read, or the deadline it gives is out of range.
    Clock,
    /// The daemon's status report is not valid UTF-8.
    MalformedStatus,
}

impl EsdmError {
    /// A short description of the failure.
    pub fn message(&self) -> (r: &'static str) {
        match self {
            EsdmError::Unavailable => "ESDM cannot be reached or rejected the operation",
            EsdmError::TimedOut => "waiting for the ESDM timed out",
            EsdmError::Clock => "the monotonic clock gave no usable deadline",
            EsdmError::MalformedStatus => "the ESDM status report is not valid UTF-8",
        }
    }
}

} // verus!
