//! Connection factory and lifecycle adapter for pooled thrift RPC clients.
//!
//! The library composes a layered client (socket half, transport, protocol,
//! client object) out of small construction capabilities, and adapts the
//! finished client to the connect / validate / retire hooks that external
//! connection-pool managers expect.  The composition and the lifecycle
//! bookkeeping are verified; the network itself and the thrift wire format
//! are supplied by the `thrift` crate and stay behind declared interfaces.

pub mod builder;
pub mod client;
pub mod errors;
pub mod manager;
pub mod protocol;
pub mod thrift_ext;
pub mod transport;

pub use builder::MakeThriftConnection;
pub use builder::MakeThriftConnectionFromAddrs;
pub use builder::lemma_clients_independent;
pub use client::FromProtocol;
pub use client::lemma_fresh_client_ready;
pub use client::PooledClient;
pub use client::ThriftConnection;
pub use errors::ConnectError;
pub use manager::ThriftConnectionManager;
pub use protocol::BinaryInputProtocol;
pub use protocol::BinaryOutputProtocol;
pub use protocol::CompactInputProtocol;
pub use protocol::CompactOutputProtocol;
pub use protocol::FromReadTransport;
pub use protocol::FromWriteTransport;
pub use protocol::InputProtocolHandle;
pub use protocol::OutputProtocolHandle;
pub use thrift_ext::RawReadHalf;
pub use thrift_ext::RawWriteHalf;
pub use transport::BufferedReadTransport;
pub use transport::BufferedWriteTransport;
pub use transport::FramedReadTransport;
pub use transport::FramedWriteTransport;
pub use transport::FromRead;
pub use transport::FromWrite;
pub use transport::ReadTransportHandle;
pub use transport::WriteTransportHandle;
