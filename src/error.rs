use vstd::prelude::*;

verus! {

/// Failures that the protocol reports to its caller.
#[derive(Debug, Clone, PartialEq, Eq)]
pub enum Error {
    /// A peer did not answer before the deadline.
    Timeout,
    /// The transport failed (connection or serialization).
    Rpc(String),
    /// A write-write or lock conflict was detected.
    Conflict,
    /// The primary lock was cleaned up by another party before the commit.
    TransactionExpired,
    /// Anything else.
    Other(String),
}

} // verus!
