//! The trusted rim around the `thrift` crate.
//!
//! The thrift transport and protocol types are generic over `std::io::Read`
//! and `std::io::Write` bounds that cannot be declared here, so each
//! concrete layering is held inside an opaque struct of its own.  Each
//! wrapper below makes exactly one thrift constructor call; these
//! constructors only wrap an already-open value, perform no I/O and cannot
//! fail.  Nothing else in the library is trusted.

use vstd::prelude::*;
use thrift::protocol::TBinaryInputProtocol;
use thrift::protocol::TBinaryOutputProtocol;
use thrift::protocol::TCompactInputProtocol;
use thrift::protocol::TCompactOutputProtocol;
use thrift::transport::ReadHalf;
use thrift::transport::TBufferedReadTransport;
use thrift::transport::TBufferedWriteTransport;
use thrift::transport::TFramedReadTransport;
use thrift::transport::TFramedWriteTransport;
use thrift::transport::TTcpChannel;
use thrift::transport::WriteHalf;

verus! {

/// Declares `thrift::Error`, the error type that a failed channel open or
/// split reports.  Opaque to the verifier.
#[verifier::external_type_specification]
#[verifier::external_body]
pub struct ExThriftError(thrift::Error);

/// The readable half of a split TCP channel, as handed in by the caller
/// who opened the channel.  Opaque to the verifier.
#[verifier::external_body]
pub struct RawReadHalf(pub ReadHalf<TTcpChannel>);

/// The writable half of a split TCP channel, as handed in by the caller
/// who opened the channel.  Opaque to the verifier.
#[verifier::external_body]
pub struct RawWriteHalf(pub WriteHalf<TTcpChannel>);

/// A thrift buffered read transport over a raw read half.  Opaque to the
/// verifier; built only by `new_buffered_read`.
#[verifier::external_body]
pub struct BufferedReadInner(TBufferedReadTransport<ReadHalf<TTcpChannel>>);

/// A thrift framed read transport over a raw read half.  Opaque to the
/// verifier; built only by `new_framed_read`.
#[verifier::external_body]
pub struct FramedReadInner(TFramedReadTransport<ReadHalf<TTcpChannel>>);

/// A thrift buffered write transport over a raw write half.  Opaque to the
/// verifier; built only by `new_buffered_write`.
#[verifier::external_body]
pub struct BufferedWriteInner(TBufferedWriteTransport<WriteHalf<TTcpChannel>>);

/// A thrift framed write transport over a raw write half.  Opaque to the
/// verifier; built only by `new_framed_write`.
#[verifier::external_body]
pub struct FramedWriteInner(TFramedWriteTransport<WriteHalf<TTcpChannel>>);

/// A thrift binary input protocol over a buffered read transport.
#[verifier::external_body]
pub struct BinaryBufferedInput(TBinaryInputProtocol<TBufferedReadTransport<ReadHalf<TTcpChannel>>>);

/// A thrift binary input protocol over a framed read transport.
#[verifier::external_body]
pub struct BinaryFramedInput(TBinaryInputProtocol<TFramedReadTransport<ReadHalf<TTcpChannel>>>);

/// A thrift compact input protocol over a buffered read transport.
#[verifier::external_body]
pub struct CompactBufferedInput(TCompactInputProtocol<TBufferedReadTransport<ReadHalf<TTcpChannel>>>);

/// A thrift compact input protocol over a framed read transport.
#[verifier::external_body]
pub struct CompactFramedInput(TCompactInputProtocol<TFramedReadTransport<ReadHalf<TTcpChannel>>>);

/// A thrift binary output protocol over a buffered write transport.
#[verifier::external_body]
pub struct BinaryBufferedOutput(TBinaryOutputProtocol<TBufferedWriteTransport<WriteHalf<TTcpChannel>>>);

/// A thrift binary output protocol over a framed write transport.
#[verifier::external_body]
pub struct BinaryFramedOutput(TBinaryOutputProtocol<TFramedWriteTransport<WriteHalf<TTcpChannel>>>);

/// A thrift compact output protocol over a buffered write transport.
#[verifier::external_body]
pub struct CompactBufferedOutput(TCompactOutputProtocol<TBufferedWriteTransport<WriteHalf<TTcpChannel>>>);

/// A thrift compact output protocol over a framed write transport.
#[verifier::external_body]
pub struct CompactFramedOutput(TCompactOutputProtocol<TFramedWriteTransport<WriteHalf<TTcpChannel>>>);

/// Relies on `thrift::transport::TBufferedReadTransport::new`: wraps a
/// readable half in a buffering layer; pure construction, cannot fail.
#[verifier::external_body]
pub(crate) fn new_buffered_read(read: RawReadHalf) -> BufferedReadInner {
    BufferedReadInner(TBufferedReadTransport::new(read.0))
}

/// Relies on `thrift::transport::TFramedReadTransport::new`: wraps a
/// readable half in a message-framing layer; pure construction, cannot fail.
#[verifier::external_body]
pub(crate) fn new_framed_read(read: RawReadHalf) -> FramedReadInner {
    FramedReadInner(TFramedReadTransport::new(read.0))
}

/// Relies on `thrift::transport::TBufferedWriteTransport::new`: wraps a
/// writable half in a buffering layer; pure construction, cannot fail.
#[verifier::external_body]
pub(crate) fn new_buffered_write(write: RawWriteHalf) -> BufferedWriteInner {
    BufferedWriteInner(TBufferedWriteTransport::new(write.0))
}

/// Relies on `thrift::transport::TFramedWriteTransport::new`: wraps a
/// writable half in a message-framing layer; pure construction, cannot fail.
#[verifier::external_body]
pub(crate) fn new_framed_write(write: RawWriteHalf) -> FramedWriteInner {
    FramedWriteInner(TFramedWriteTransport::new(write.0))
}

/// Relies on `thrift::protocol::TBinaryInputProtocol::new` (here over a
/// buffered transport): wraps a read transport in the fixed binary decoder;
/// `strict` selects version-header validation; pure construction, cannot
/// fail.
#[verifier::external_body]
pub(crate) fn new_binary_input_buffered(transport: BufferedReadInner, strict: bool) -> BinaryBufferedInput {
    BinaryBufferedInput(TBinaryInputProtocol::new(transport.0, strict))
}

/// Relies on `thrift::protocol::TBinaryInputProtocol::new` (here over a
/// framed transport): wraps a read transport in the fixed binary decoder;
/// `strict` selects version-header validation; pure construction, cannot
/// fail.
#[verifier::external_body]
pub(crate) fn new_binary_input_framed(transport: FramedReadInner, strict: bool) -> BinaryFramedInput {
    BinaryFramedInput(TBinaryInputProtocol::new(transport.0, strict))
}

/// Relies on `thrift::protocol::TCompactInputProtocol::new` (here over a
/// buffered transport): wraps a read transport in the compact
/// variable-length decoder; pure construction, cannot fail.
#[verifier::external_body]
pub(crate) fn new_compact_input_buffered(transport: BufferedReadInner) -> CompactBufferedInput {
    CompactBufferedInput(TCompactInputProtocol::new(transport.0))
}

/// Relies on `thrift::protocol::TCompactInputProtocol::new` (here over a
/// framed transport): wraps a read transport in the compact variable-length
/// decoder; pure construction, cannot fail.
#[verifier::external_body]
pub(crate) fn new_compact_input_framed(transport: FramedReadInner) -> CompactFramedInput {
    CompactFramedInput(TCompactInputProtocol::new(transport.0))
}

/// Relies on `thrift::protocol::TBinaryOutputProtocol::new` (here over a
/// buffered transport): wraps a write transport in the fixed binary
/// encoder; `strict` selects version-header validation; pure construction,
/// cannot fail.
#[verifier::external_body]
pub(crate) fn new_binary_output_buffered(transport: BufferedWriteInner, strict: bool) -> BinaryBufferedOutput {
    BinaryBufferedOutput(TBinaryOutputProtocol::new(transport.0, strict))
}

/// Relies on `thrift::protocol::TBinaryOutputProtocol::new` (here over a
/// framed transport): wraps a write transport in the fixed binary encoder;
/// `strict` selects version-header validation; pure construction, cannot
/// fail.
#[verifier::external_body]
pub(crate) fn new_binary_output_framed(transport: FramedWriteInner, strict: bool) -> BinaryFramedOutput {
    BinaryFramedOutput(TBinaryOutputProtocol::new(transport.0, strict))
}

/// Relies on `thrift::protocol::TCompactOutputProtocol::new` (here over a
/// buffered transport): wraps a write transport in the compact
/// variable-length encoder; pure construction, cannot fail.
#[verifier::external_body]
pub(crate) fn new_compact_output_buffered(transport: BufferedWriteInner) -> CompactBufferedOutput {
    CompactBufferedOutput(TCompactOutputProtocol::new(transport.0))
}

/// Relies on `thrift::protocol::TCompactOutputProtocol::new` (here over a
/// framed transport): wraps a write transport in the compact
/// variable-length encoder; pure construction, cannot fail.
#[verifier::external_body]
pub(crate) fn new_compact_output_framed(transport: FramedWriteInner) -> CompactFramedOutput {
    CompactFramedOutput(TCompactOutputProtocol::new(transport.0))
}

} // verus!
