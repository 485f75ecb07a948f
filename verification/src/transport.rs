//! Transport-making capabilities: how the raw read/write half of a split
//! channel is wrapped into a buffered or framed transport layer.

use vstd::prelude::*;
use crate::thrift_ext::BufferedReadInner;
use crate::thrift_ext::BufferedWriteInner;
use crate::thrift_ext::FramedReadInner;
use crate::thrift_ext::FramedWriteInner;
use crate::thrift_ext::RawReadHalf;
use crate::thrift_ext::RawWriteHalf;
use crate::thrift_ext::new_buffered_read;
use crate::thrift_ext::new_buffered_write;
use crate::thrift_ext::new_framed_read;
use crate::thrift_ext::new_framed_write;

verus! {

/// A thrift read transport of either supported strategy, ready to be
/// wrapped by an input protocol layer.
pub enum ReadTransportHandle {
    Buffered(BufferedReadInner),
    Framed(FramedReadInner),
}

/// A thrift write transport of either supported strategy, ready to be
/// wrapped by an output protocol layer.
pub enum WriteTransportHandle {
    Buffered(BufferedWriteInner),
    Framed(FramedWriteInner),
}

/// Capability to build a read-side transport layer from a readable half.
///
/// A transport produced by `from_read` owns exactly the half it was given;
/// `source` names that half, so that the ownership chain from a finished
/// client down to its raw stream halves can be stated and proved.  The
/// transport amounts to a thrift read transport, which `into_read_transport`
/// hands out for the protocol layer above.
pub trait FromRead: Sized {
    /// The readable half this transport is built from.
    type Read;

    /// The half that this transport owns.
    spec fn source(&self) -> Self::Read;

    /// The thrift read transport this layer amounts to, as a value.
    spec fn handle(&self) -> ReadTransportHandle;

    /// Wrap `read` into a transport layer; pure construction, cannot fail.
    fn from_read(read: Self::Read) -> (t: Self)
        ensures
            t.source() == read,
    ;

    /// Hand out the thrift read transport this layer amounts to.
    fn into_read_transport(self) -> (r: ReadTransportHandle)
        ensures
            r == self.handle(),
    ;
}

/// Capability to build a write-side transport layer from a writable half.
///
/// The counterpart of [`FromRead`] for the write side of the stream.
pub trait FromWrite: Sized {
    /// The writable half this transport is built from.
    type Write;

    /// The half that this transport owns.
    spec fn source(&self) -> Self::Write;

    /// The thrift write transport this layer amounts to, as a value.
    spec fn handle(&self) -> WriteTransportHandle;

    /// Wrap `write` into a transport layer; pure construction, cannot fail.
    fn from_write(write: Self::Write) -> (t: Self)
        ensures
            t.source() == write,
    ;

    /// Hand out the thrift write transport this layer amounts to.
    fn into_write_transport(self) -> (r: WriteTransportHandle)
        ensures
            r == self.handle(),
    ;
}

/// A read transport with no message boundaries: raw byte buffering.
pub struct BufferedReadTransport {
    inner: BufferedReadInner,
    half: Ghost<RawReadHalf>,
}

impl FromRead for BufferedReadTransport {
    type Read = RawReadHalf;

    closed spec fn source(&self) -> RawReadHalf {
        self.half@
    }

    closed spec fn handle(&self) -> ReadTransportHandle {
        ReadTransportHandle::Buffered(self.inner)
    }

    fn from_read(read: RawReadHalf) -> (t: Self)
        ensures
            (t.handle() matches ReadTransportHandle::Buffered(_)),
    {
        let ghost src = read;
        BufferedReadTransport { inner: new_buffered_read(read), half: Ghost(src) }
    }

    fn into_read_transport(self) -> ReadTransportHandle {
        ReadTransportHandle::Buffered(self.inner)
    }
}

/// A read transport with length-prefixed message boundaries.
pub struct FramedReadTransport {
    inner: FramedReadInner,
    half: Ghost<RawReadHalf>,
}

impl FromRead for FramedReadTransport {
    type Read = RawReadHalf;

    closed spec fn source(&self) -> RawReadHalf {
        self.half@
    }

    closed spec fn handle(&self) -> ReadTransportHandle {
        ReadTransportHandle::Framed(self.inner)
    }

    fn from_read(read: RawReadHalf) -> (t: Self)
        ensures
            (t.handle() matches ReadTransportHandle::Framed(_)),
    {
        let ghost src = read;
        FramedReadTransport { inner: new_framed_read(read), half: Ghost(src) }
    }

    fn into_read_transport(self) -> ReadTransportHandle {
        ReadTransportHandle::Framed(self.inner)
    }
}

/// A write transport with no message boundaries: raw byte buffering.
pub struct BufferedWriteTransport {
    inner: BufferedWriteInner,
    half: Ghost<RawWriteHalf>,
}

impl FromWrite for BufferedWriteTransport {
    type Write = RawWriteHalf;

    closed spec fn source(&self) -> RawWriteHalf {
        self.half@
    }

    closed spec fn handle(&self) -> WriteTransportHandle {
        WriteTransportHandle::Buffered(self.inner)
    }

    fn from_write(write: RawWriteHalf) -> (t: Self)
        ensures
            (t.handle() matches WriteTransportHandle::Buffered(_)),
    {
        let ghost src = write;
        BufferedWriteTransport { inner: new_buffered_write(write), half: Ghost(src) }
    }

    fn into_write_transport(self) -> WriteTransportHandle {
        WriteTransportHandle::Buffered(self.inner)
    }
}

/// A write transport with length-prefixed message boundaries.
pub struct FramedWriteTransport {
    inner: FramedWriteInner,
    half: Ghost<RawWriteHalf>,
}

impl FromWrite for FramedWriteTransport {
    type Write = RawWriteHalf;

    closed spec fn source(&self) -> RawWriteHalf {
        self.half@
    }

    closed spec fn handle(&self) -> WriteTransportHandle {
        WriteTransportHandle::Framed(self.inner)
    }

    fn from_write(write: RawWriteHalf) -> (t: Self)
        ensures
            (t.handle() matches WriteTransportHandle::Framed(_)),
    {
        let ghost src = write;
        FramedWriteTransport { inner: new_framed_write(write), half: Ghost(src) }
    }

    fn into_write_transport(self) -> WriteTransportHandle {
        WriteTransportHandle::Framed(self.inner)
    }
}

} // verus!
