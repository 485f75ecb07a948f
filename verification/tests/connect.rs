//! Connection scenarios: successful stream splits wired into clients,
//! endpoints that refuse, and the pool hooks over both scripted and real
//! makers.
//!
//! The scenarios need no live network: the two halves of a freshly split
//! stream are stood in for by unopened channel halves, which thrift builds
//! without any I/O, and refusal paths make a real open attempt to an
//! endpoint that never accepts, so the attempt fails with an I/O error
//! whether the port is closed or the network is away.

use thrift::transport::ReadHalf;
use thrift::transport::TIoChannel;
use thrift::transport::TTcpChannel;
use thrift::transport::WriteHalf;
use thrift_pool::BinaryInputProtocol;
use thrift_pool::BinaryOutputProtocol;
use thrift_pool::CompactInputProtocol;
use thrift_pool::CompactOutputProtocol;
use thrift_pool::ConnectError;
use thrift_pool::FromProtocol;
use thrift_pool::FromRead;
use thrift_pool::FromWrite;
use thrift_pool::FromWriteTransport;
use thrift_pool::FramedReadTransport;
use thrift_pool::FramedWriteTransport;
use thrift_pool::MakeThriftConnection;
use thrift_pool::MakeThriftConnectionFromAddrs;
use thrift_pool::PooledClient;
use thrift_pool::RawReadHalf;
use thrift_pool::RawWriteHalf;
use thrift_pool::ThriftConnection;
use thrift_pool::ThriftConnectionManager;

type FramedCompactClient = PooledClient<
    CompactInputProtocol<FramedReadTransport>,
    CompactOutputProtocol<FramedWriteTransport>,
>;

/// Stand-in for the two halves of a successfully opened and split stream.
fn fresh_halves() -> (RawReadHalf, RawWriteHalf) {
    let read = ReadHalf::new(TTcpChannel::new());
    let write = WriteHalf::new(TTcpChannel::new());
    (RawReadHalf(read), RawWriteHalf(write))
}

/// A real open attempt: resolves and connects, then splits.
fn open_and_split(addr: &str) -> Result<(RawReadHalf, RawWriteHalf), thrift::Error> {
    let mut channel = TTcpChannel::new();
    match channel.open(addr) {
        Ok(()) => channel.split().map(|(r, w)| (RawReadHalf(r), RawWriteHalf(w))),
        Err(e) => Err(e),
    }
}

#[test]
fn refused_endpoint_surfaces_io_error() {
    let maker =
        MakeThriftConnectionFromAddrs::<FramedCompactClient, String>::new(String::from("127.0.0.1:1"));
    let opened = open_and_split("127.0.0.1:1");
    assert!(opened.is_err());
    let outcome = maker.finish_connect(opened);
    assert!(matches!(outcome, Err(ConnectError::Io(_))));
}

#[test]
fn successful_split_yields_valid_client() {
    let maker =
        MakeThriftConnectionFromAddrs::<FramedCompactClient, String>::new(String::from("127.0.0.1:9090"));
    let outcome = maker.finish_connect(Ok(fresh_halves()));
    let mut client = match outcome {
        Ok(c) => c,
        Err(ConnectError::Io(_)) => panic!("wiring a split stream cannot fail"),
    };
    assert!(client.is_valid().is_ok());
    assert!(!client.has_broken());
}

#[test]
fn two_connections_do_not_share_state() {
    let maker =
        MakeThriftConnectionFromAddrs::<FramedCompactClient, String>::new(String::from("127.0.0.1:9090"));
    let first = match maker.finish_connect(Ok(fresh_halves())) {
        Ok(c) => c,
        Err(_) => panic!("first attempt failed"),
    };
    let mut second = match maker.finish_connect(Ok(fresh_halves())) {
        Ok(c) => c,
        Err(_) => panic!("second attempt failed"),
    };
    drop(first);
    assert!(second.is_valid().is_ok());
    assert!(!second.has_broken());
}

#[test]
fn binary_strictness_is_recorded() {
    let (read, write) = fresh_halves();
    let lenient = BinaryInputProtocol::with_strictness(FramedReadTransport::from_read(read), false);
    assert!(!lenient.is_strict());
    let strict: BinaryOutputProtocol<FramedWriteTransport> =
        FromWriteTransport::from_write_transport(FramedWriteTransport::from_write(write));
    assert!(strict.is_strict());
}

#[test]
fn builder_remembers_endpoint() {
    let maker =
        MakeThriftConnectionFromAddrs::<FramedCompactClient, String>::new(String::from("localhost:9090"));
    let copy = maker.clone();
    assert_eq!(copy.into_addrs(), String::from("localhost:9090"));
    assert_eq!(maker.into_addrs(), String::from("localhost:9090"));
}

#[test]
fn builder_converts_to_manager() {
    let manager =
        MakeThriftConnectionFromAddrs::<FramedCompactClient, String>::new(String::from("127.0.0.1:9090"))
            .into_connection_manager();
    let _copy = manager.clone();
}

struct ScriptedMaker {
    accept: bool,
}

impl MakeThriftConnection for ScriptedMaker {
    type Error = ConnectError;

    type Output = PooledClient<u8, u8>;

    fn make_thrift_connection(&self) -> Result<PooledClient<u8, u8>, ConnectError> {
        if self.accept {
            Ok(PooledClient::from_protocol(0, 0))
        } else {
            Err(ConnectError::Io(thrift::Error::from(String::from("endpoint refused"))))
        }
    }
}

#[test]
fn manager_delegates_all_hooks() {
    let manager = ThriftConnectionManager::new(ScriptedMaker { accept: true });
    let mut conn = match manager.connect() {
        Ok(c) => c,
        Err(_) => panic!("scripted maker refused"),
    };
    assert!(manager.is_valid(&mut conn).is_ok());
    assert!(!manager.has_broken(&mut conn));
}

#[test]
fn manager_surfaces_connect_error() {
    let manager = ThriftConnectionManager::new(ScriptedMaker { accept: false });
    assert!(matches!(manager.connect(), Err(ConnectError::Io(_))));
}

/// A maker over the full layered composition, with the raw stream stood in
/// by unopened halves.
struct SplitMaker;

impl MakeThriftConnection for SplitMaker {
    type Error = ConnectError;

    type Output = FramedCompactClient;

    fn make_thrift_connection(&self) -> Result<FramedCompactClient, ConnectError> {
        let maker = MakeThriftConnectionFromAddrs::<FramedCompactClient, String>::new(String::from(
            "127.0.0.1:9090",
        ));
        maker.finish_connect(Ok(fresh_halves()))
    }
}

/// A maker that really opens a TCP connection to its endpoint.
struct TcpMaker {
    addr: String,
}

impl MakeThriftConnection for TcpMaker {
    type Error = ConnectError;

    type Output = FramedCompactClient;

    fn make_thrift_connection(&self) -> Result<FramedCompactClient, ConnectError> {
        let maker = MakeThriftConnectionFromAddrs::<FramedCompactClient, String>::new(self.addr.clone());
        maker.finish_connect(open_and_split(&self.addr))
    }
}

#[test]
fn pool_hooks_complete_scenario() {
    let manager = ThriftConnectionManager::new(SplitMaker);
    let mut conn = match manager.connect() {
        Ok(c) => c,
        Err(_) => panic!("wiring a split stream cannot fail"),
    };
    assert!(manager.is_valid(&mut conn).is_ok());
    assert!(!manager.has_broken(&mut conn));
}

#[test]
fn pool_hooks_surface_io_error_over_tcp() {
    let manager = ThriftConnectionManager::new(TcpMaker { addr: String::from("127.0.0.1:1") });
    assert!(matches!(manager.connect(), Err(ConnectError::Io(_))));
}
