//! The connection builder: opens nothing itself, but turns the outcome of
//! opening and splitting a raw stream into a fully wired client, one layer
//! at a time, exactly once per successful attempt.

use vstd::prelude::*;
use core::marker::PhantomData;
use crate::client::FromProtocol;
use crate::errors::ConnectError;
use crate::manager::ThriftConnectionManager;
use crate::protocol::FromReadTransport;
use crate::protocol::FromWriteTransport;
use crate::thrift_ext::RawReadHalf;
use crate::thrift_ext::RawWriteHalf;
use crate::transport::FromRead;
use crate::transport::FromWrite;

verus! {

/// A maker of new poolable connections.
///
/// `connection_ok` names what holds of every connection the maker hands
/// out; `make_thrift_connection` may fail for any reason (typically I/O),
/// but never returns a connection that violates it.
pub trait MakeThriftConnection {
    /// The error type returned when a connection creation fails.
    type Error;

    /// The connection type we are trying to create.
    type Output;

    /// What holds of every connection this maker hands out.  By default
    /// nothing is promised; a maker with a stronger story overrides this.
    open spec fn connection_ok(&self, conn: Self::Output) -> bool {
        true
    }

    /// Attempt to create a new connection.
    fn make_thrift_connection(&self) -> (r: Result<Self::Output, Self::Error>)
        ensures
            (r matches Ok(conn) ==> self.connection_ok(conn)),
    ;
}

/// A connection builder for clients of type `T`, reaching an endpoint
/// that `addrs` names.
///
/// The builder owns the endpoint for its lifetime and carries the client
/// type as a pure type parameter with no runtime representation.  Opening
/// and splitting the TCP stream is the caller's unverified duty; the
/// builder wires every successful split into a client, one layer at a
/// time, through the four layer-construction capabilities that the type
/// parameters of `build_client` select.
pub struct MakeThriftConnectionFromAddrs<T, S> {
    addrs: S,
    conn: PhantomData<T>,
}

impl<T, S> MakeThriftConnectionFromAddrs<T, S> {
    /// The endpoint this builder connects to.
    pub closed spec fn addrs(&self) -> S {
        self.addrs
    }

    /// Remember the endpoint to connect to.
    pub fn new(addrs: S) -> (b: Self)
        ensures
            b.addrs() == addrs,
    {
        MakeThriftConnectionFromAddrs { addrs, conn: PhantomData }
    }

    /// Give the endpoint back.
    pub fn into_addrs(self) -> (addrs: S)
        ensures
            addrs == self.addrs(),
    {
        self.addrs
    }
}

impl<T, S: Clone> Clone for MakeThriftConnectionFromAddrs<T, S> {
    fn clone(&self) -> Self {
        MakeThriftConnectionFromAddrs { addrs: self.addrs.clone(), conn: PhantomData }
    }
}

impl<
    S: Clone,
    RT: FromRead<Read = RawReadHalf>,
    IP: FromReadTransport<ReadTransport = RT>,
    WT: FromWrite<Write = RawWriteHalf>,
    OP: FromWriteTransport<WriteTransport = WT>,
    T: FromProtocol<InputProtocol = IP, OutputProtocol = OP>,
> MakeThriftConnectionFromAddrs<T, S> {
    /// Wrap this builder in the adapter that connection pools talk to.
    pub fn into_connection_manager(self) -> (m: ThriftConnectionManager<Self>)
        ensures
            m.maker() == self,
    {
        ThriftConnectionManager::new(self)
    }

    /// Wire a freshly split stream into a client: wrap each half in its
    /// transport layer, each transport in its protocol layer, and hand the
    /// protocol pair to the client constructor.  Pure construction, cannot
    /// fail; the finished client owns exactly the two given halves, one
    /// per side.
    pub fn build_client(read: RawReadHalf, write: RawWriteHalf) -> (c: T)
        ensures
            c.input_protocol().transport().source() == read,
            c.output_protocol().transport().source() == write,
    {
        let read_transport = RT::from_read(read);
        let input_protocol = IP::from_read_transport(read_transport);

        let write_transport = WT::from_write(write);
        let output_protocol = OP::from_write_transport(write_transport);

        T::from_protocol(input_protocol, output_protocol)
    }

    /// Decide a connection attempt from the outcome of opening and
    /// splitting the raw stream: a successful split is wired into a client
    /// and nothing else can fail, while an I/O failure is surfaced as
    /// `ConnectError::Io` and produces no client at all.
    pub fn finish_connect(&self, channel: Result<(RawReadHalf, RawWriteHalf), thrift::Error>) -> (r:
        Result<T, ConnectError>)
        ensures
            (channel matches Ok(halves) ==> r matches Ok(c)
                && c.input_protocol().transport().source() == halves.0
                && c.output_protocol().transport().source() == halves.1),
            (channel matches Err(e) ==> r matches Err(f) && f == ConnectError::Io(e)),
    {
        match channel {
            Ok((read, write)) => Ok(Self::build_client(read, write)),
            Err(e) => Err(ConnectError::Io(e)),
        }
    }
}

/// Two successful attempts never share state: clients wired to distinct
/// read halves are distinct clients, so dropping or breaking one cannot
/// affect the other.
pub proof fn lemma_clients_independent<
    RT: FromRead<Read = RawReadHalf>,
    IP: FromReadTransport<ReadTransport = RT>,
    T: FromProtocol<InputProtocol = IP>,
>(c1: T, c2: T, r1: RawReadHalf, r2: RawReadHalf)
    requires
        c1.input_protocol().transport().source() == r1,
        c2.input_protocol().transport().source() == r2,
        r1 != r2,
    ensures
        c1 != c2,
{
}

} // verus!
