use bytes::{Bytes, BytesMut};
use zerocopy::network_endian;
use zerocopy_buf::{Sink, ZeroCopyBufMut, ZeroCopyReadBuf};

#[derive(PartialEq, Debug)]
struct Ipv4Header {
    version_uhl: u8,
    dscp_ecn: u8,
    total_length: network_endian::U16,
    identification: network_endian::U16,
    flags_fragment: network_endian::U16,
    ttl: u8,
    protocol: u8,
    checksum: network_endian::U16,
    src: Ipv4Addr,
    dst: Ipv4Addr,
}

#[derive(PartialEq, Debug)]
struct Ipv4Addr([u8; 4]);

fn as_bytes(h: &Ipv4Header) -> [u8; 20] {
    let mut b = [0u8; 20];
    b[0] = h.version_uhl;
    b[1] = h.dscp_ecn;
    b[2..4].copy_from_slice(&h.total_length.to_bytes());
    b[4..6].copy_from_slice(&h.identification.to_bytes());
    b[6..8].copy_from_slice(&h.flags_fragment.to_bytes());
    b[8] = h.ttl;
    b[9] = h.protocol;
    b[10..12].copy_from_slice(&h.checksum.to_bytes());
    b[12..16].copy_from_slice(&h.src.0);
    b[16..20].copy_from_slice(&h.dst.0);
    b
}

#[test]
fn write() {
    let header =
        b"\x45\x00\x00\x14\x00\x00\x00\x00\x01\x06\x00\x00\x7f\x00\x00\x01\x7f\x00\x00\x02";
    let mut data = BytesMut::new();
    data.write(&as_bytes(&Ipv4Header {
        version_uhl: 0x45,
        dscp_ecn: 0x00,
        total_length: network_endian::U16::new(20),
        identification: network_endian::U16::new(0),
        flags_fragment: network_endian::U16::new(0),
        ttl: 1,
        protocol: 6,
        checksum: network_endian::U16::new(0),
        src: Ipv4Addr([127, 0, 0, 1]),
        dst: Ipv4Addr([127, 0, 0, 2]),
    }));

    assert_eq!(data, header[..]);
}

#[test]
fn write_appends() {
    let mut data = BytesMut::from(&b"ab"[..]);
    data.write(b"cd");
    data.write(b"");
    data.write(b"e");
    assert_eq!(data, b"abcde"[..]);

    let mut data: Vec<u8> = vec![1, 2];
    data.write(&[3, 4]);
    data.write(&[]);
    assert_eq!(data, [1, 2, 3, 4]);
}

#[test]
fn put_slice_appends() {
    let mut data = BytesMut::new();
    Sink::put_slice(&mut data, b"\x01\x02");
    Sink::put_slice(&mut data, b"\x03");
    assert_eq!(data, b"\x01\x02\x03"[..]);

    let mut data: Vec<u8> = Vec::new();
    Sink::put_slice(&mut data, b"\x01\x02");
    Sink::put_slice(&mut data, b"\x03");
    assert_eq!(data, b"\x01\x02\x03");
}

#[test]
fn remaining_mut_counts_down_from_the_limit() {
    let mut data = BytesMut::new();
    assert_eq!(Sink::remaining_mut(&data), isize::MAX as usize);
    Sink::put_slice(&mut data, b"\x01\x02");
    assert_eq!(Sink::remaining_mut(&data), isize::MAX as usize - 2);

    let mut data: Vec<u8> = Vec::new();
    assert_eq!(Sink::remaining_mut(&data), isize::MAX as usize);
    data.write(b"abc");
    assert_eq!(Sink::remaining_mut(&data), isize::MAX as usize - 3);
}

#[test]
fn write_then_read_gives_the_value_back() {
    let value = as_bytes(&Ipv4Header {
        version_uhl: 0x45,
        dscp_ecn: 0x00,
        total_length: network_endian::U16::new(20),
        identification: network_endian::U16::new(7),
        flags_fragment: network_endian::U16::new(0x4000),
        ttl: 64,
        protocol: 17,
        checksum: network_endian::U16::new(0xbeef),
        src: Ipv4Addr([10, 0, 0, 1]),
        dst: Ipv4Addr([10, 0, 0, 2]),
    });
    let mut data = BytesMut::new();
    data.write(&value);
    let read = data.try_read(20).unwrap();
    assert_eq!(read, value);
    assert!(data.is_empty());

    let mut data: Vec<u8> = Vec::new();
    data.write(&value);
    let mut stream = Bytes::from(data);
    assert_eq!(stream.try_read(20).unwrap(), value);
    assert!(stream.is_empty());
}

#[test]
fn write_behind_other_bytes_reads_back_after_them() {
    let mut data = BytesMut::from(&b"xyz"[..]);
    data.write(b"\x01\x02\x03\x04");
    assert_eq!(data.try_read(3).unwrap(), b"xyz");
    assert_eq!(data.try_read(4).unwrap(), b"\x01\x02\x03\x04");
    assert!(data.is_empty());
}
