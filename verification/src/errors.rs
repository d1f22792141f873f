//! The failure conditions of the boundary operations.
//!
//! The numeric entry points return no structured error to the host, so every
//! failure carries a human-readable message that the host-side failure
//! forwarder can deliver through its callback.

use vstd::prelude::*;

verus! {

/// A fatal condition of a boundary operation. A verification mismatch is not
/// an error: it is a defined `false` result of the verify operation.
#[derive(Clone, Copy, Debug, PartialEq, Eq, Structural)]
pub enum BoundaryError {
    /// The memory/time/parallelism/output-length combination is rejected by
    /// the derivation primitive.
    InvalidParameters,
    /// The encoded hash string is not UTF-8 or fails the primitive's decoder.
    MalformedHash,
    /// The derivation primitive reported a failure while deriving the key.
    DerivationFailed,
    /// Memory could not be obtained: the arena could not satisfy an
    /// allocation request, or the derivation primitive could not obtain the
    /// working memory its cost parameters demand.
    AllocationFailed,
}

impl BoundaryError {
    /// The message that the failure forwarder delivers for this condition.
    pub open spec fn spec_message(self) -> Seq<char> {
        match self {
            BoundaryError::InvalidParameters => "invalid cost parameters"@,
            BoundaryError::MalformedHash => "malformed encoded hash string"@,
            BoundaryError::DerivationFailed => "key derivation failed"@,
            BoundaryError::AllocationFailed => "allocation failed"@,
        }
    }

    /// A human-readable description of the condition, for the host-side
    /// failure forwarder.
    pub fn message(&self) -> (r: &'static str)
        ensures
            r@ == self.spec_message(),
    {
        match self {
            BoundaryError::InvalidParameters => "invalid cost parameters",
            BoundaryError::MalformedHash => "malformed encoded hash string",
            BoundaryError::DerivationFailed => "key derivation failed",
            BoundaryError::AllocationFailed => "allocation failed",
        }
    }
}

} // verus!
