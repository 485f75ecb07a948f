//! The client lifecycle contract: what a finished client object must
//! provide so that a connection pool can manage it, and a minimal client
//! type that provides exactly that.

use vstd::prelude::*;
use crate::errors::ConnectError;

verus! {

/// Capability to build a client from an input protocol and an output
/// protocol.
///
/// A client built by `from_protocol` exclusively owns the two protocol
/// layers it was given; `input_protocol` and `output_protocol` name them,
/// completing the ownership chain from the client down to the raw stream
/// halves.
pub trait FromProtocol: Sized {
    /// The input protocol the client decodes responses with.
    type InputProtocol;

    /// The output protocol the client encodes requests with.
    type OutputProtocol;

    /// The input protocol that this client owns.
    spec fn input_protocol(&self) -> Self::InputProtocol;

    /// The output protocol that this client owns.
    spec fn output_protocol(&self) -> Self::OutputProtocol;

    /// Build the client; pure construction, no I/O, cannot fail.
    fn from_protocol(
        input_protocol: Self::InputProtocol,
        output_protocol: Self::OutputProtocol,
    ) -> (c: Self)
        ensures
            c.input_protocol() == input_protocol,
            c.output_protocol() == output_protocol,
    ;
}

/// The lifecycle surface a pool touches on a client: a liveness probe and
/// a cheap broken-connection check.
pub trait ThriftConnection {
    /// The error type a failed liveness probe surfaces to the pool.
    type Error;

    /// Whether the liveness probe succeeds on this client.  By default a
    /// client is presumed live; a client with a real probe overrides this
    /// with its own model of liveness.
    open spec fn valid(&self) -> bool {
        true
    }

    /// Whether the cheap broken-connection check reports this client as
    /// unusable.  A client with no cheap check to consult reports `false`:
    /// it degrades to "assume healthy".
    open spec fn broken(&self) -> bool {
        false
    }

    /// Liveness probe; `Err` tells the pool to discard the connection.
    fn is_valid(&mut self) -> (r: Result<(), Self::Error>)
        ensures
            r.is_ok() == old(self).valid(),
    ;

    /// Cheap, non-blocking broken-connection check; never fails.
    fn has_broken(&mut self) -> (b: bool)
        ensures
            b == old(self).broken(),
    ;
}

/// A minimal poolable client: it owns one input protocol and one output
/// protocol and has no further state.
///
/// Its liveness probe performs no I/O and always succeeds, and it has no
/// cheap broken-check to consult, so `has_broken` reports `false`.
pub struct PooledClient<Ip, Op> {
    input: Ip,
    output: Op,
}

impl<Ip, Op> FromProtocol for PooledClient<Ip, Op> {
    type InputProtocol = Ip;

    type OutputProtocol = Op;

    closed spec fn input_protocol(&self) -> Ip {
        self.input
    }

    closed spec fn output_protocol(&self) -> Op {
        self.output
    }

    fn from_protocol(input_protocol: Ip, output_protocol: Op) -> (c: Self) {
        PooledClient { input: input_protocol, output: output_protocol }
    }
}

impl<Ip, Op> ThriftConnection for PooledClient<Ip, Op> {
    type Error = ConnectError;

    fn is_valid(&mut self) -> (r: Result<(), ConnectError>)
        ensures
            *final(self) == *old(self),
    {
        Ok(())
    }

    fn has_broken(&mut self) -> (b: bool)
        ensures
            *final(self) == *old(self),
    {
        false
    }
}

/// Every client of this minimal type is immediately ready for the pool --
/// in particular a freshly built, never-used one: its liveness probe
/// succeeds and its broken-check reports `false`.
pub proof fn lemma_fresh_client_ready<Ip, Op>(c: PooledClient<Ip, Op>)
    ensures
        c.valid(),
        !c.broken(),
{
}

} // verus!
