use bytes::{Bytes, BytesMut};
use zerocopy::network_endian;
use zerocopy_buf::{SliceLayout, ZeroCopyBuf};

#[derive(PartialEq, Debug)]
struct Ipv4Header {
    version_uhl: u8,
    dscp_ecn: u8,
    total_length: network_endian::U16,
    identification: network_endian::U16,
    flags_fragment: network_endian::U16,
    ttl: u8,
    protocol: u8,
    checksum: network_endian::U16,
    src: Ipv4Addr,
    dst: Ipv4Addr,
}

#[derive(PartialEq, Debug)]
struct Ipv4Addr([u8; 4]);

const HEADER_SIZE: usize = 20;

fn u16_at(b: &[u8], at: usize) -> network_endian::U16 {
    network_endian::U16::from_bytes([b[at], b[at + 1]])
}

fn header(b: &[u8]) -> Ipv4Header {
    assert_eq!(b.len(), HEADER_SIZE);
    Ipv4Header {
        version_uhl: b[0],
        dscp_ecn: b[1],
        total_length: u16_at(b, 2),
        identification: u16_at(b, 4),
        flags_fragment: u16_at(b, 6),
        ttl: b[8],
        protocol: b[9],
        checksum: u16_at(b, 10),
        src: Ipv4Addr([b[12], b[13], b[14], b[15]]),
        dst: Ipv4Addr([b[16], b[17], b[18], b[19]]),
    }
}

#[test]
fn try_peek() {
    let header_bytes =
        b"\x45\x00\x00\x14\x00\x00\x00\x00\x01\x06\x00\x00\x7f\x00\x00\x01\x7f\x00\x00\x02\xff\xfe\xfd\xfc";
    let mut data = Bytes::from_static(header_bytes);
    let peeked = data.try_peek(HEADER_SIZE).unwrap();

    assert_eq!(
        header(peeked),
        Ipv4Header {
            version_uhl: 0x45,
            dscp_ecn: 0x00,
            total_length: network_endian::U16::new(20),
            identification: network_endian::U16::new(0),
            flags_fragment: network_endian::U16::new(0),
            ttl: 1,
            protocol: 6,
            checksum: network_endian::U16::new(0),
            src: Ipv4Addr([127, 0, 0, 1]),
            dst: Ipv4Addr([127, 0, 0, 2]),
        }
    );

    assert_eq!(data, header_bytes[..]);
}

#[test]
fn try_peek_error() {
    let header = b"\x45\x00\x00\x14\x00\x00\x00\x00\x01\x06\x00\x00\x7f\x00\x00\x01\x7f\x00\x00";
    let mut data = Bytes::from_static(header);
    let _err = data.try_peek(HEADER_SIZE).unwrap_err();

    assert_eq!(data.len(), 19);
}

#[test]
fn peek_error_carries_the_bytes_at_hand() {
    let header = b"\x45\x00\x00\x14\x00\x00\x00\x00\x01\x06\x00\x00\x7f\x00\x00\x01\x7f\x00\x00";
    let mut data = Bytes::from_static(header);
    let err = data.try_peek(HEADER_SIZE).unwrap_err();
    assert_eq!(err.into_src(), &header[..]);

    let mut data = BytesMut::from(&header[..]);
    let err = data.try_peek(HEADER_SIZE).unwrap_err();
    assert_eq!(err.into_src(), &header[..]);
    assert_eq!(data, header[..]);

    let mut data: &[u8] = header;
    let err = data.try_peek(HEADER_SIZE).unwrap_err();
    assert_eq!(err.into_src(), &header[..]);
    assert_eq!(data, &header[..]);
}

#[test]
fn peek_twice_sees_the_same() {
    let bytes = b"\x45\x00\x00\x14\x00\x00\x00\x00\x01\x06\x00\x00\x7f\x00\x00\x01\x7f\x00\x00\x02\xff";
    let mut data = Bytes::from_static(bytes);
    let first = data.try_peek(HEADER_SIZE).unwrap().to_vec();
    assert_eq!(data.len(), 21);
    let second = data.try_peek(HEADER_SIZE).unwrap().to_vec();
    assert_eq!(data.len(), 21);
    assert_eq!(first, second);
    assert_eq!(first, &bytes[..20]);

    assert!(data.try_peek(22).is_err());
    assert!(data.try_peek(22).is_err());
    assert_eq!(data, bytes[..]);
}

#[test]
fn peek_then_get_hands_out_the_same_bytes() {
    let bytes = b"\x01\x02\x03\x04\x05";
    let mut data = BytesMut::from(&bytes[..]);
    let peeked = data.try_peek(4).unwrap().to_vec();
    let got = data.try_get(4).unwrap();
    assert_eq!(peeked, std::ops::Deref::deref(&got));
    assert_eq!(data, b"\x05"[..]);
}

#[test]
fn peek_elems() {
    let bytes = b"\x00\x02abcdXY";
    let layout = SliceLayout { offset: 2, elem_size: 2 };

    let mut data = Bytes::from_static(bytes);
    assert_eq!(data.try_peek_elems(&layout, 2).unwrap(), b"\x00\x02abcd");
    assert_eq!(data.try_peek_elems(&layout, 3).unwrap(), b"\x00\x02abcdXY");
    assert_eq!(data.try_peek_elems(&layout, 4).unwrap_err().into_src(), &bytes[..]);
    assert_eq!(data, bytes[..]);

    let mut data = BytesMut::from(&bytes[..]);
    assert_eq!(data.try_peek_elems(&layout, 0).unwrap(), b"\x00\x02");
    assert_eq!(data.try_peek_elems(&layout, 4).unwrap_err().into_src(), &bytes[..]);
    assert_eq!(data, bytes[..]);

    let mut data: &[u8] = bytes;
    assert_eq!(data.try_peek_elems(&layout, 1).unwrap(), b"\x00\x02ab");
    assert_eq!(data.try_peek_elems(&layout, 4).unwrap_err().into_src(), &bytes[..]);
    assert_eq!(data, &bytes[..]);
}

#[test]
fn peek_of_nothing_succeeds_on_an_empty_stream() {
    let mut data = Bytes::new();
    assert_eq!(data.try_peek(0).unwrap(), b"");
    assert!(data.try_peek(1).is_err());
}
