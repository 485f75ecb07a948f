//! Protocol-making capabilities: how a transport layer is wrapped into an
//! encoding protocol layer, fixed binary or compact variable-length.

use vstd::prelude::*;
use crate::thrift_ext::BinaryBufferedInput;
use crate::thrift_ext::BinaryBufferedOutput;
use crate::thrift_ext::BinaryFramedInput;
use crate::thrift_ext::BinaryFramedOutput;
use crate::thrift_ext::CompactBufferedInput;
use crate::thrift_ext::CompactBufferedOutput;
use crate::thrift_ext::CompactFramedInput;
use crate::thrift_ext::CompactFramedOutput;
use crate::thrift_ext::new_binary_input_buffered;
use crate::thrift_ext::new_binary_input_framed;
use crate::thrift_ext::new_binary_output_buffered;
use crate::thrift_ext::new_binary_output_framed;
use crate::thrift_ext::new_compact_input_buffered;
use crate::thrift_ext::new_compact_input_framed;
use crate::thrift_ext::new_compact_output_buffered;
use crate::thrift_ext::new_compact_output_framed;
use crate::transport::FromRead;
use crate::transport::FromWrite;
use crate::transport::ReadTransportHandle;
use crate::transport::WriteTransportHandle;

verus! {

/// A thrift input protocol of either supported encoding, over either
/// supported read transport.
pub enum InputProtocolHandle {
    BinaryBuffered(BinaryBufferedInput),
    BinaryFramed(BinaryFramedInput),
    CompactBuffered(CompactBufferedInput),
    CompactFramed(CompactFramedInput),
}

/// A thrift output protocol of either supported encoding, over either
/// supported write transport.
pub enum OutputProtocolHandle {
    BinaryBuffered(BinaryBufferedOutput),
    BinaryFramed(BinaryFramedOutput),
    CompactBuffered(CompactBufferedOutput),
    CompactFramed(CompactFramedOutput),
}

/// Capability to build an input protocol layer from a read transport.
///
/// A protocol produced by `from_read_transport` owns exactly the transport
/// it was given; `transport` names that layer, continuing the ownership
/// chain that `FromRead::source` starts.
pub trait FromReadTransport: Sized {
    /// The read transport this protocol is built from.
    type ReadTransport;

    /// The transport layer that this protocol owns.
    spec fn transport(&self) -> Self::ReadTransport;

    /// Wrap `r_tran` into a decoding layer; pure construction, cannot fail.
    fn from_read_transport(r_tran: Self::ReadTransport) -> (p: Self)
        ensures
            p.transport() == r_tran,
    ;
}

/// Capability to build an output protocol layer from a write transport.
///
/// The counterpart of [`FromReadTransport`] for the write side.
pub trait FromWriteTransport: Sized {
    /// The write transport this protocol is built from.
    type WriteTransport;

    /// The transport layer that this protocol owns.
    spec fn transport(&self) -> Self::WriteTransport;

    /// Wrap `w_tran` into an encoding layer; pure construction, cannot fail.
    fn from_write_transport(w_tran: Self::WriteTransport) -> (p: Self)
        ensures
            p.transport() == w_tran,
    ;
}

/// The fixed binary decoder over a read transport `RT`.
///
/// The `strict` flag governs whether reads enforce the protocol
/// version-header validation.
pub struct BinaryInputProtocol<RT> {
    inner: InputProtocolHandle,
    strict: bool,
    made_from: Ghost<RT>,
}

impl<RT> BinaryInputProtocol<RT> {
    /// A binary decoder always holds a binary thrift protocol.
    #[verifier::type_invariant]
    closed spec fn wf(&self) -> bool {
        self.inner matches InputProtocolHandle::BinaryBuffered(_) || self.inner
            matches InputProtocolHandle::BinaryFramed(_)
    }

    /// The thrift input protocol this layer amounts to, as a value.
    pub closed spec fn handle(&self) -> InputProtocolHandle {
        self.inner
    }

    /// Whether this decoder enforces version-header validation.
    pub closed spec fn strictness(&self) -> bool {
        self.strict
    }

    /// Whether this decoder enforces version-header validation.
    pub fn is_strict(&self) -> (b: bool)
        ensures
            b == self.strictness(),
    {
        self.strict
    }
}

impl<RT: FromRead> BinaryInputProtocol<RT> {
    /// Build the decoder with an explicit strictness choice.
    pub fn with_strictness(r_tran: RT, strict: bool) -> (p: Self)
        ensures
            p.transport() == r_tran,
            p.strictness() == strict,
            (r_tran.handle() matches ReadTransportHandle::Buffered(_) ==> p.handle()
                matches InputProtocolHandle::BinaryBuffered(_)),
            (r_tran.handle() matches ReadTransportHandle::Framed(_) ==> p.handle()
                matches InputProtocolHandle::BinaryFramed(_)),
    {
        let ghost g = r_tran;
        let inner = match r_tran.into_read_transport() {
            ReadTransportHandle::Buffered(t) => {
                InputProtocolHandle::BinaryBuffered(new_binary_input_buffered(t, strict))
            }
            ReadTransportHandle::Framed(t) => {
                InputProtocolHandle::BinaryFramed(new_binary_input_framed(t, strict))
            }
        };
        BinaryInputProtocol { inner, strict, made_from: Ghost(g) }
    }
}

impl<RT: FromRead> FromReadTransport for BinaryInputProtocol<RT> {
    type ReadTransport = RT;

    closed spec fn transport(&self) -> RT {
        self.made_from@
    }

    fn from_read_transport(r_tran: RT) -> (p: Self)
        ensures
            p.strictness(),
            (r_tran.handle() matches ReadTransportHandle::Buffered(_) ==> p.handle()
                matches InputProtocolHandle::BinaryBuffered(_)),
            (r_tran.handle() matches ReadTransportHandle::Framed(_) ==> p.handle()
                matches InputProtocolHandle::BinaryFramed(_)),
    {
        Self::with_strictness(r_tran, true)
    }
}

/// The compact variable-length decoder over a read transport `RT`.
pub struct CompactInputProtocol<RT> {
    inner: InputProtocolHandle,
    made_from: Ghost<RT>,
}

impl<RT> CompactInputProtocol<RT> {
    /// A compact decoder always holds a compact thrift protocol.
    #[verifier::type_invariant]
    closed spec fn wf(&self) -> bool {
        self.inner matches InputProtocolHandle::CompactBuffered(_) || self.inner
            matches InputProtocolHandle::CompactFramed(_)
    }

    /// The thrift input protocol this layer amounts to, as a value.
    pub closed spec fn handle(&self) -> InputProtocolHandle {
        self.inner
    }
}

impl<RT: FromRead> FromReadTransport for CompactInputProtocol<RT> {
    type ReadTransport = RT;

    closed spec fn transport(&self) -> RT {
        self.made_from@
    }

    fn from_read_transport(r_tran: RT) -> (p: Self)
        ensures
            (r_tran.handle() matches ReadTransportHandle::Buffered(_) ==> p.handle()
                matches InputProtocolHandle::CompactBuffered(_)),
            (r_tran.handle() matches ReadTransportHandle::Framed(_) ==> p.handle()
                matches InputProtocolHandle::CompactFramed(_)),
    {
        let ghost g = r_tran;
        let inner = match r_tran.into_read_transport() {
            ReadTransportHandle::Buffered(t) => {
                InputProtocolHandle::CompactBuffered(new_compact_input_buffered(t))
            }
            ReadTransportHandle::Framed(t) => {
                InputProtocolHandle::CompactFramed(new_compact_input_framed(t))
            }
        };
        CompactInputProtocol { inner, made_from: Ghost(g) }
    }
}

/// The fixed binary encoder over a write transport `WT`.
///
/// The `strict` flag governs whether writes emit the protocol
/// version header.
pub struct BinaryOutputProtocol<WT> {
    inner: OutputProtocolHandle,
    strict: bool,
    made_from: Ghost<WT>,
}

impl<WT> BinaryOutputProtocol<WT> {
    /// A binary encoder always holds a binary thrift protocol.
    #[verifier::type_invariant]
    closed spec fn wf(&self) -> bool {
        self.inner matches OutputProtocolHandle::BinaryBuffered(_) || self.inner
            matches OutputProtocolHandle::BinaryFramed(_)
    }

    /// The thrift output protocol this layer amounts to, as a value.
    pub closed spec fn handle(&self) -> OutputProtocolHandle {
        self.inner
    }

    /// Whether this encoder emits the protocol version header.
    pub closed spec fn strictness(&self) -> bool {
        self.strict
    }

    /// Whether this encoder emits the protocol version header.
    pub fn is_strict(&self) -> (b: bool)
        ensures
            b == self.strictness(),
    {
        self.strict
    }
}

impl<WT: FromWrite> BinaryOutputProtocol<WT> {
    /// Build the encoder with an explicit strictness choice.
    pub fn with_strictness(w_tran: WT, strict: bool) -> (p: Self)
        ensures
            p.transport() == w_tran,
            p.strictness() == strict,
            (w_tran.handle() matches WriteTransportHandle::Buffered(_) ==> p.handle()
                matches OutputProtocolHandle::BinaryBuffered(_)),
            (w_tran.handle() matches WriteTransportHandle::Framed(_) ==> p.handle()
                matches OutputProtocolHandle::BinaryFramed(_)),
    {
        let ghost g = w_tran;
        let inner = match w_tran.into_write_transport() {
            WriteTransportHandle::Buffered(t) => {
                OutputProtocolHandle::BinaryBuffered(new_binary_output_buffered(t, strict))
            }
            WriteTransportHandle::Framed(t) => {
                OutputProtocolHandle::BinaryFramed(new_binary_output_framed(t, strict))
            }
        };
        BinaryOutputProtocol { inner, strict, made_from: Ghost(g) }
    }
}

impl<WT: FromWrite> FromWriteTransport for BinaryOutputProtocol<WT> {
    type WriteTransport = WT;

    closed spec fn transport(&self) -> WT {
        self.made_from@
    }

    fn from_write_transport(w_tran: WT) -> (p: Self)
        ensures
            p.strictness(),
            (w_tran.handle() matches WriteTransportHandle::Buffered(_) ==> p.handle()
                matches OutputProtocolHandle::BinaryBuffered(_)),
            (w_tran.handle() matches WriteTransportHandle::Framed(_) ==> p.handle()
                matches OutputProtocolHandle::BinaryFramed(_)),
    {
        Self::with_strictness(w_tran, true)
    }
}

/// The compact variable-length encoder over a write transport `WT`.
pub struct CompactOutputProtocol<WT> {
    inner: OutputProtocolHandle,
    made_from: Ghost<WT>,
}

impl<WT> CompactOutputProtocol<WT> {
    /// A compact encoder always holds a compact thrift protocol.
    #[verifier::type_invariant]
    closed spec fn wf(&self) -> bool {
        self.inner matches OutputProtocolHandle::CompactBuffered(_) || self.inner
            matches OutputProtocolHandle::CompactFramed(_)
    }

    /// The thrift output protocol this layer amounts to, as a value.
    pub closed spec fn handle(&self) -> OutputProtocolHandle {
        self.inner
    }
}

impl<WT: FromWrite> FromWriteTransport for CompactOutputProtocol<WT> {
    type WriteTransport = WT;

    closed spec fn transport(&self) -> WT {
        self.made_from@
    }

    fn from_write_transport(w_tran: WT) -> (p: Self)
        ensures
            (w_tran.handle() matches WriteTransportHandle::Buffered(_) ==> p.handle()
                matches OutputProtocolHandle::CompactBuffered(_)),
            (w_tran.handle() matches WriteTransportHandle::Framed(_) ==> p.handle()
                matches OutputProtocolHandle::CompactFramed(_)),
    {
        let ghost g = w_tran;
        let inner = match w_tran.into_write_transport() {
            WriteTransportHandle::Buffered(t) => {
                OutputProtocolHandle::CompactBuffered(new_compact_output_buffered(t))
            }
            WriteTransportHandle::Framed(t) => {
                OutputProtocolHandle::CompactFramed(new_compact_output_framed(t))
            }
        };
        CompactOutputProtocol { inner, made_from: Ghost(g) }
    }
}

} // verus!
