//! The client lifecycle contract, observed on the minimal client.

use thrift_pool::FromProtocol;
use thrift_pool::PooledClient;
use thrift_pool::ThriftConnection;

#[test]
fn fresh_client_reports_not_broken() {
    let mut client: PooledClient<u8, u8> = PooledClient::from_protocol(1, 2);
    assert!(!client.has_broken());
}

#[test]
fn fresh_client_is_valid() {
    let mut client: PooledClient<u8, u8> = PooledClient::from_protocol(1, 2);
    assert!(client.is_valid().is_ok());
}

#[test]
fn broken_check_is_stable() {
    let mut client: PooledClient<u8, u8> = PooledClient::from_protocol(7, 9);
    assert!(!client.has_broken());
    assert!(client.is_valid().is_ok());
    assert!(!client.has_broken());
}

#[test]
fn clients_are_independent() {
    let mut first: PooledClient<u8, u8> = PooledClient::from_protocol(1, 2);
    let mut second: PooledClient<u8, u8> = PooledClient::from_protocol(1, 2);
    assert!(first.is_valid().is_ok());
    drop(first);
    assert!(second.is_valid().is_ok());
    assert!(!second.has_broken());
}
