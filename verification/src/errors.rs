//! The error taxonomy of the connection factory.

use vstd::prelude::*;

verus! {

/// Why a connection attempt failed.
///
/// A validation failure is not a `ConnectError`: it is surfaced unchanged
/// as the client's own error type by `ThriftConnection::is_valid`.
pub enum ConnectError {
    /// Network resolution, connect, or stream-split failure.  Fatal to the
    /// attempt and surfaced to the caller; never retried internally.
    Io(thrift::Error),
}

} // verus!
