//! Round trips through the thrift encodings the library composes: a value
//! written through an output protocol and read back through the matching
//! input protocol decodes to the original, for both encodings and both
//! transport strategies.

use thrift::protocol::TBinaryInputProtocol;
use thrift::protocol::TBinaryOutputProtocol;
use thrift::protocol::TCompactInputProtocol;
use thrift::protocol::TCompactOutputProtocol;
use thrift::protocol::TInputProtocol;
use thrift::protocol::TOutputProtocol;
use thrift::transport::TBufferChannel;
use thrift::transport::TBufferedReadTransport;
use thrift::transport::TBufferedWriteTransport;
use thrift::transport::TFramedReadTransport;
use thrift::transport::TFramedWriteTransport;

fn write_values(o_prot: &mut dyn TOutputProtocol) {
    o_prot.write_i32(-7).unwrap();
    o_prot.write_bool(true).unwrap();
    o_prot.write_string("ping").unwrap();
    o_prot.flush().unwrap();
}

fn read_values_back(i_prot: &mut dyn TInputProtocol) {
    assert_eq!(i_prot.read_i32().unwrap(), -7);
    assert!(i_prot.read_bool().unwrap());
    assert_eq!(i_prot.read_string().unwrap(), "ping");
}

#[test]
fn binary_over_buffered_round_trip() {
    let mut chan = TBufferChannel::with_capacity(2048, 2048);
    let mut o_prot = TBinaryOutputProtocol::new(TBufferedWriteTransport::new(chan.clone()), true);
    write_values(&mut o_prot);
    chan.copy_write_buffer_to_read_buffer();
    let mut i_prot = TBinaryInputProtocol::new(TBufferedReadTransport::new(chan.clone()), true);
    read_values_back(&mut i_prot);
}

#[test]
fn binary_over_framed_round_trip() {
    let mut chan = TBufferChannel::with_capacity(2048, 2048);
    let mut o_prot = TBinaryOutputProtocol::new(TFramedWriteTransport::new(chan.clone()), true);
    write_values(&mut o_prot);
    chan.copy_write_buffer_to_read_buffer();
    let mut i_prot = TBinaryInputProtocol::new(TFramedReadTransport::new(chan.clone()), true);
    read_values_back(&mut i_prot);
}

#[test]
fn compact_over_buffered_round_trip() {
    let mut chan = TBufferChannel::with_capacity(2048, 2048);
    let mut o_prot = TCompactOutputProtocol::new(TBufferedWriteTransport::new(chan.clone()));
    write_values(&mut o_prot);
    chan.copy_write_buffer_to_read_buffer();
    let mut i_prot = TCompactInputProtocol::new(TBufferedReadTransport::new(chan.clone()));
    read_values_back(&mut i_prot);
}

#[test]
fn compact_over_framed_round_trip() {
    let mut chan = TBufferChannel::with_capacity(2048, 2048);
    let mut o_prot = TCompactOutputProtocol::new(TFramedWriteTransport::new(chan.clone()));
    write_values(&mut o_prot);
    chan.copy_write_buffer_to_read_buffer();
    let mut i_prot = TCompactInputProtocol::new(TFramedReadTransport::new(chan.clone()));
    read_values_back(&mut i_prot);
}
